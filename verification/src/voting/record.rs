//! The debate record, its ballots and its invariant.

use super::tally::{capped, tally_of, winner};
use crate::text::{byte_len, MAX_ID_BYTES};
use anchor_lang::prelude::Pubkey;
use vstd::prelude::*;

verus! {

/// Largest encoded size of a debate's topic, in bytes.
pub const MAX_TOPIC_BYTES: usize = 128;

/// Largest encoded size of a ballot's reasoning, in bytes.
pub const MAX_REASONING_BYTES: usize = 128;

/// Largest number of ballots a debate can hold.
pub const MAX_VOTES: usize = 20;

/// Largest confidence a ballot can carry, in percent.
pub const MAX_CONFIDENCE: u8 = 100;

/// The position a ballot takes.
#[derive(Clone, Copy, Debug, PartialEq, Eq, Structural)]
pub enum VoteOption {
    Support,
    Oppose,
    Neutral,
    Abstain,
}

impl VoteOption {
    /// The option's fixed wire value.
    pub open spec fn wire(self) -> int {
        match self {
            VoteOption::Support => 0,
            VoteOption::Oppose => 1,
            VoteOption::Neutral => 2,
            VoteOption::Abstain => 3,
        }
    }

    /// The option whose wire value is `value`, if there is one.
    pub open spec fn of_wire(value: u8) -> Option<VoteOption> {
        match value {
            0 => Some(VoteOption::Support),
            1 => Some(VoteOption::Oppose),
            2 => Some(VoteOption::Neutral),
            3 => Some(VoteOption::Abstain),
            _ => None,
        }
    }

    /// The option's fixed wire value.
    pub fn wire_value(&self) -> (value: u8)
        ensures
            value == self.wire(),
            VoteOption::of_wire(value) == Some(*self),
    {
        match self {
            VoteOption::Support => 0,
            VoteOption::Oppose => 1,
            VoteOption::Neutral => 2,
            VoteOption::Abstain => 3,
        }
    }

    /// Decodes a wire value; values above 3 name no option.
    pub fn from_wire(value: u8) -> (option: Option<VoteOption>)
        ensures
            option == VoteOption::of_wire(value),
            option is Some <==> value <= 3,
            option matches Some(o) ==> o.wire() == value,
    {
        match value {
            0 => Some(VoteOption::Support),
            1 => Some(VoteOption::Oppose),
            2 => Some(VoteOption::Neutral),
            3 => Some(VoteOption::Abstain),
            _ => None,
        }
    }
}

/// Lifecycle stage of a debate. `Completed` and `Closed` are both final.
#[derive(Clone, Copy, Debug, PartialEq, Eq, Structural)]
pub enum DebateStatus {
    Active,
    Completed,
    Closed,
}

impl DebateStatus {
    /// The stage's fixed wire value.
    pub open spec fn rank(self) -> int {
        match self {
            DebateStatus::Active => 0,
            DebateStatus::Completed => 1,
            DebateStatus::Closed => 2,
        }
    }

    /// The stage whose wire value is `value`, if there is one.
    pub open spec fn of_wire(value: u8) -> Option<DebateStatus> {
        match value {
            0 => Some(DebateStatus::Active),
            1 => Some(DebateStatus::Completed),
            2 => Some(DebateStatus::Closed),
            _ => None,
        }
    }

    /// The stage's fixed wire value.
    pub fn wire_value(&self) -> (value: u8)
        ensures
            value == self.rank(),
            DebateStatus::of_wire(value) == Some(*self),
    {
        match self {
            DebateStatus::Active => 0,
            DebateStatus::Completed => 1,
            DebateStatus::Closed => 2,
        }
    }

    /// Decodes a wire value; values above 2 name no stage.
    pub fn from_wire(value: u8) -> (status: Option<DebateStatus>)
        ensures
            status == DebateStatus::of_wire(value),
            status is Some <==> value <= 2,
            status matches Some(s) ==> s.rank() == value,
    {
        match value {
            0 => Some(DebateStatus::Active),
            1 => Some(DebateStatus::Completed),
            2 => Some(DebateStatus::Closed),
            _ => None,
        }
    }
}

/// Why a debate transition was refused.
#[derive(Clone, Copy, Debug, PartialEq, Eq, Structural)]
pub enum ErrorCode {
    /// The debate is completed or closed.
    DebateNotActive,
    /// The confidence is above 100.
    InvalidConfidence,
    /// The agent already has a ballot on record.
    AlreadyVoted,
    /// There is no ballot to tally.
    NoVotes,
    /// The debate has no tally on record.
    VotesNotTallied,
    /// A debate is already stored under the requested identifier.
    AlreadyExists,
    /// An argument lies outside its declared bounds.
    InvalidArgument,
    /// The caller is not the debate's authority.
    Unauthorized,
    /// The debate already holds as many ballots as it can.
    CapacityExceeded,
}

impl ErrorCode {
    /// The stable numeric code of the error, for the errors that have one.
    pub open spec fn spec_code(self) -> Option<u32> {
        match self {
            ErrorCode::DebateNotActive => Some(6100u32),
            ErrorCode::InvalidConfidence => Some(6101u32),
            ErrorCode::AlreadyVoted => Some(6102u32),
            ErrorCode::NoVotes => Some(6103u32),
            ErrorCode::VotesNotTallied => Some(6104u32),
            _ => None,
        }
    }

    /// The stable numeric code of the error. Errors raised by the host's own
    /// guards (existence, bounds, authority, capacity) have no fixed code.
    pub fn code(&self) -> (code: Option<u32>)
        ensures
            code == self.spec_code(),
    {
        match self {
            ErrorCode::DebateNotActive => Some(6100),
            ErrorCode::InvalidConfidence => Some(6101),
            ErrorCode::AlreadyVoted => Some(6102),
            ErrorCode::NoVotes => Some(6103),
            ErrorCode::VotesNotTallied => Some(6104),
            _ => None,
        }
    }
}

/// One agent's ballot.
#[derive(Debug, PartialEq, Eq)]
pub struct Vote {
    pub agent_id: String,
    pub vote_option: VoteOption,
    pub confidence: u8,
    pub reasoning: String,
    pub timestamp: i64,
}

/// Mathematical content of a [`Vote`].
#[verifier::ext_equal]
pub struct VoteView {
    pub agent_id: Seq<char>,
    pub vote_option: VoteOption,
    pub confidence: u8,
    pub reasoning: Seq<char>,
    pub timestamp: i64,
}

impl View for Vote {
    type V = VoteView;

    open spec fn view(&self) -> VoteView {
        VoteView {
            agent_id: self.agent_id@,
            vote_option: self.vote_option,
            confidence: self.confidence,
            reasoning: self.reasoning@,
            timestamp: self.timestamp,
        }
    }
}

impl Clone for Vote {
    /// A copy with the same content.
    fn clone(&self) -> (copy: Self)
        ensures
            copy@ == self@,
    {
        Vote {
            agent_id: self.agent_id.clone(),
            vote_option: self.vote_option,
            confidence: self.confidence,
            reasoning: self.reasoning.clone(),
            timestamp: self.timestamp,
        }
    }
}

impl VoteView {
    /// The ballot respects the bounds of its fields.
    pub open spec fn wf(self) -> bool {
        &&& self.confidence <= MAX_CONFIDENCE
        &&& byte_len(self.agent_id) <= MAX_ID_BYTES
        &&& byte_len(self.reasoning) <= MAX_REASONING_BYTES
    }
}

/// The contents of a list of ballots, in order.
pub open spec fn ballots(votes: Seq<Vote>) -> Seq<VoteView> {
    Seq::new(votes.len(), |i: int| votes[i]@)
}

/// Every ballot of `votes` respects the bounds of its fields.
pub open spec fn all_bounded(votes: Seq<VoteView>) -> bool {
    forall|i: int| 0 <= i < votes.len() ==> (#[trigger] votes[i]).wf()
}

/// Whether `agent_id` has a ballot among `votes`.
pub open spec fn has_voted(votes: Seq<VoteView>, agent_id: Seq<char>) -> bool {
    exists|i: int| 0 <= i < votes.len() && (#[trigger] votes[i]).agent_id == agent_id
}

/// No agent has more than one ballot among `votes`.
pub open spec fn one_ballot_each(votes: Seq<VoteView>) -> bool {
    forall|i: int, j: int|
        #![trigger votes[i], votes[j]]
        0 <= i < j < votes.len() ==> votes[i].agent_id != votes[j].agent_id
}

/// One debate, as persisted by the ledger.
#[derive(Debug, PartialEq, Eq)]
pub struct Debate {
    pub debate_id: String,
    pub topic: String,
    pub authority: Pubkey,
    pub max_rounds: u8,
    pub current_round: u8,
    pub votes: Vec<Vote>,
    pub timestamp: i64,
    pub completion_timestamp: i64,
    pub status: DebateStatus,
    pub outcome: Option<VoteOption>,
    pub support_score: u16,
    pub oppose_score: u16,
    pub neutral_score: u16,
    pub votes_tallied: bool,
}

/// Mathematical content of a [`Debate`].
#[verifier::ext_equal]
pub struct DebateView {
    pub debate_id: Seq<char>,
    pub topic: Seq<char>,
    pub authority: Pubkey,
    pub max_rounds: u8,
    pub current_round: u8,
    pub votes: Seq<VoteView>,
    pub timestamp: i64,
    pub completion_timestamp: i64,
    pub status: DebateStatus,
    pub outcome: Option<VoteOption>,
    pub support_score: u16,
    pub oppose_score: u16,
    pub neutral_score: u16,
    pub votes_tallied: bool,
}

impl View for Debate {
    type V = DebateView;

    open spec fn view(&self) -> DebateView {
        DebateView {
            debate_id: self.debate_id@,
            topic: self.topic@,
            authority: self.authority,
            max_rounds: self.max_rounds,
            current_round: self.current_round,
            votes: ballots(self.votes@),
            timestamp: self.timestamp,
            completion_timestamp: self.completion_timestamp,
            status: self.status,
            outcome: self.outcome,
            support_score: self.support_score,
            oppose_score: self.oppose_score,
            neutral_score: self.neutral_score,
            votes_tallied: self.votes_tallied,
        }
    }
}

impl Clone for Debate {
    /// A copy with the same content.
    fn clone(&self) -> (copy: Self)
        ensures
            copy@ == self@,
    {
        let copy = Debate {
            debate_id: self.debate_id.clone(),
            topic: self.topic.clone(),
            authority: self.authority,
            max_rounds: self.max_rounds,
            current_round: self.current_round,
            votes: self.votes.clone(),
            timestamp: self.timestamp,
            completion_timestamp: self.completion_timestamp,
            status: self.status,
            outcome: self.outcome,
            support_score: self.support_score,
            oppose_score: self.oppose_score,
            neutral_score: self.neutral_score,
            votes_tallied: self.votes_tallied,
        };
        assert(copy@.votes =~= self@.votes);
        copy
    }
}

impl DebateView {
    /// The scores and the outcome on record are those that the ballots on
    /// record give.
    pub open spec fn tally_matches_ballots(self) -> bool {
        let counted = tally_of(self.votes);
        &&& self.support_score == capped(counted.support)
        &&& self.oppose_score == capped(counted.oppose)
        &&& self.neutral_score == capped(counted.neutral)
        &&& self.outcome == Some(winner(counted))
    }

    /// The debate invariant. Every debate produced by `initialize_debate`
    /// satisfies it and every transition keeps it.
    pub open spec fn wf(self) -> bool {
        &&& byte_len(self.debate_id) <= MAX_ID_BYTES
        &&& byte_len(self.topic) <= MAX_TOPIC_BYTES
        &&& self.current_round <= self.max_rounds
        &&& self.votes.len() <= MAX_VOTES
        &&& all_bounded(self.votes)
        &&& one_ballot_each(self.votes)
        &&& self.votes_tallied <==> self.status == DebateStatus::Completed
        &&& self.votes_tallied <==> self.outcome is Some
        &&& self.votes_tallied ==> self.votes.len() >= 1 && self.tally_matches_ballots()
    }
}

/// The results of a tallied debate.
#[derive(Debug, PartialEq, Eq)]
pub struct VoteResults {
    pub debate_id: String,
    pub outcome: VoteOption,
    pub support_score: u16,
    pub oppose_score: u16,
    pub neutral_score: u16,
    pub total_votes: u16,
}

/// Mathematical content of a [`VoteResults`].
#[verifier::ext_equal]
pub struct VoteResultsView {
    pub debate_id: Seq<char>,
    pub outcome: VoteOption,
    pub support_score: u16,
    pub oppose_score: u16,
    pub neutral_score: u16,
    pub total_votes: u16,
}

impl View for VoteResults {
    type V = VoteResultsView;

    open spec fn view(&self) -> VoteResultsView {
        VoteResultsView {
            debate_id: self.debate_id@,
            outcome: self.outcome,
            support_score: self.support_score,
            oppose_score: self.oppose_score,
            neutral_score: self.neutral_score,
            total_votes: self.total_votes,
        }
    }
}

impl Clone for VoteResults {
    /// A copy with the same content.
    fn clone(&self) -> (copy: Self)
        ensures
            copy@ == self@,
    {
        VoteResults {
            debate_id: self.debate_id.clone(),
            outcome: self.outcome,
            support_score: self.support_score,
            oppose_score: self.oppose_score,
            neutral_score: self.neutral_score,
            total_votes: self.total_votes,
        }
    }
}

/// Creation of a debate. `debate` is the storage slot that the ledger keeps
/// for the requested identifier: empty until a debate is created in it.
#[derive(Debug, PartialEq, Eq)]
pub struct InitializeDebate {
    pub debate: Option<Debate>,
    pub authority: Pubkey,
}

impl InitializeDebate {
    /// The content of the slot: the stored debate, if there is one.
    pub open spec fn stored(self) -> Option<DebateView> {
        match self.debate {
            Some(debate) => Some(debate@),
            None => None,
        }
    }
}

/// A ballot for `debate`, submitted by `voter`. The ballot names its agent
/// itself; the submitting caller is not bound to it.
#[derive(Debug, PartialEq, Eq)]
pub struct CastVote {
    pub debate: Debate,
    pub voter: Pubkey,
}

/// The tally of `debate`, requested by `authority`.
#[derive(Debug, PartialEq, Eq)]
pub struct TallyVotes {
    pub debate: Debate,
    pub authority: Pubkey,
}

/// The closing of `debate`, requested by `authority`.
#[derive(Debug, PartialEq, Eq)]
pub struct CloseDebate {
    pub debate: Debate,
    pub authority: Pubkey,
}

/// A read of the results of `debate`.
#[derive(Debug, PartialEq, Eq)]
pub struct GetResults {
    pub debate: Debate,
}

} // verus!
