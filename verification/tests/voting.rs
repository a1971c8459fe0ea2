use ai_council::voting::{
    cast_vote, close_debate, get_results, initialize_debate, tally_votes, CastVote, CloseDebate,
    Debate, DebateStatus, ErrorCode, GetResults, InitializeDebate, TallyVotes, Vote, VoteOption,
    VoteResults,
};
use anchor_lang::prelude::Pubkey;

fn chair_key() -> Pubkey {
    Pubkey::new_from_array([3u8; 32])
}

fn outsider_key() -> Pubkey {
    Pubkey::new_from_array([4u8; 32])
}

fn created_debate(id: &str) -> Debate {
    let mut ctx = InitializeDebate { debate: None, authority: chair_key() };
    assert_eq!(
        initialize_debate(&mut ctx, id.to_string(), "Should we ship?".to_string(), 1, 500),
        Ok(())
    );
    ctx.debate.unwrap()
}

fn debate_with_ballots(id: &str, ballots: &[(&str, VoteOption, u8)]) -> Debate {
    let mut ctx = CastVote { debate: created_debate(id), voter: outsider_key() };
    for (agent, option, confidence) in ballots {
        assert_eq!(
            cast_vote(&mut ctx, agent.to_string(), *option, *confidence, "because".to_string(), 600),
            Ok(())
        );
    }
    ctx.debate
}

fn tallied_debate(id: &str, ballots: &[(&str, VoteOption, u8)]) -> Debate {
    let mut ctx = TallyVotes { debate: debate_with_ballots(id, ballots), authority: chair_key() };
    assert_eq!(tally_votes(&mut ctx, 700), Ok(()));
    ctx.debate
}

fn closed_debate(id: &str) -> Debate {
    let mut ctx = CloseDebate { debate: created_debate(id), authority: chair_key() };
    assert_eq!(close_debate(&mut ctx), Ok(()));
    ctx.debate
}

fn ballot(agent: &str, option: VoteOption, confidence: u8) -> Vote {
    Vote {
        agent_id: agent.to_string(),
        vote_option: option,
        confidence,
        reasoning: String::new(),
        timestamp: 0,
    }
}

#[test]
fn initialize_debate_creates_an_active_record() {
    let mut ctx = InitializeDebate { debate: None, authority: chair_key() };
    let result = initialize_debate(&mut ctx, "d1".to_string(), "topic".to_string(), 3, 1_234);
    assert_eq!(result, Ok(()));
    let expected = Debate {
        debate_id: "d1".to_string(),
        topic: "topic".to_string(),
        authority: chair_key(),
        max_rounds: 3,
        current_round: 0,
        votes: Vec::new(),
        timestamp: 1_234,
        completion_timestamp: 0,
        status: DebateStatus::Active,
        outcome: None,
        support_score: 0,
        oppose_score: 0,
        neutral_score: 0,
        votes_tallied: false,
    };
    assert_eq!(ctx.debate, Some(expected));
    assert_eq!(ctx.authority, chair_key());
}

#[test]
fn initialize_debate_refuses_an_occupied_slot() {
    let existing = created_debate("d1");
    let mut ctx = InitializeDebate { debate: Some(existing.clone()), authority: outsider_key() };
    let result = initialize_debate(&mut ctx, "d1".to_string(), "other".to_string(), 9, 1);
    assert_eq!(result, Err(ErrorCode::AlreadyExists));
    assert_eq!(ctx.debate, Some(existing));
}

#[test]
fn initialize_debate_bounds_identifier_and_topic() {
    let mut ctx = InitializeDebate { debate: None, authority: chair_key() };
    assert_eq!(
        initialize_debate(&mut ctx, "d".repeat(33), "topic".to_string(), 1, 1),
        Err(ErrorCode::InvalidArgument)
    );
    assert_eq!(ctx.debate, None);
    assert_eq!(
        initialize_debate(&mut ctx, "d1".to_string(), "t".repeat(129), 1, 1),
        Err(ErrorCode::InvalidArgument)
    );
    assert_eq!(ctx.debate, None);
    assert_eq!(initialize_debate(&mut ctx, "d".repeat(32), "t".repeat(128), 0, 1), Ok(()));
    let debate = ctx.debate.unwrap();
    assert_eq!(debate.max_rounds, 0);
    assert_eq!(debate.current_round, 0);
}

#[test]
fn cast_vote_appends_the_ballot() {
    let mut ctx = CastVote { debate: created_debate("d1"), voter: outsider_key() };
    let before = ctx.debate.clone();
    let result = cast_vote(
        &mut ctx,
        "ag1".to_string(),
        VoteOption::Oppose,
        65,
        "too early".to_string(),
        777,
    );
    assert_eq!(result, Ok(()));
    let expected = Debate {
        votes: vec![Vote {
            agent_id: "ag1".to_string(),
            vote_option: VoteOption::Oppose,
            confidence: 65,
            reasoning: "too early".to_string(),
            timestamp: 777,
        }],
        ..before
    };
    assert_eq!(ctx.debate, expected);
    assert_eq!(ctx.voter, outsider_key());
}

#[test]
fn cast_vote_keeps_ballots_in_order() {
    let debate = debate_with_ballots(
        "d1",
        &[("b", VoteOption::Support, 1), ("a", VoteOption::Oppose, 2), ("c", VoteOption::Abstain, 3)],
    );
    let agents: Vec<&str> = debate.votes.iter().map(|vote| vote.agent_id.as_str()).collect();
    assert_eq!(agents, vec!["b", "a", "c"]);
}

#[test]
fn cast_vote_bounds_the_confidence() {
    let mut ctx = CastVote { debate: created_debate("d1"), voter: outsider_key() };
    let before = ctx.debate.clone();
    assert_eq!(
        cast_vote(&mut ctx, "a".to_string(), VoteOption::Support, 101, String::new(), 1),
        Err(ErrorCode::InvalidConfidence)
    );
    assert_eq!(
        cast_vote(&mut ctx, "a".to_string(), VoteOption::Support, 255, String::new(), 1),
        Err(ErrorCode::InvalidConfidence)
    );
    assert_eq!(ctx.debate, before);
    assert_eq!(cast_vote(&mut ctx, "a".to_string(), VoteOption::Support, 100, String::new(), 1), Ok(()));
    assert_eq!(cast_vote(&mut ctx, "b".to_string(), VoteOption::Support, 0, String::new(), 1), Ok(()));
    assert_eq!(ctx.debate.votes.len(), 2);
}

#[test]
fn cast_vote_bounds_agent_and_reasoning() {
    let mut ctx = CastVote { debate: created_debate("d1"), voter: outsider_key() };
    let before = ctx.debate.clone();
    assert_eq!(
        cast_vote(&mut ctx, "a".repeat(33), VoteOption::Support, 50, String::new(), 1),
        Err(ErrorCode::InvalidArgument)
    );
    assert_eq!(
        cast_vote(&mut ctx, "a".to_string(), VoteOption::Support, 50, "r".repeat(129), 1),
        Err(ErrorCode::InvalidArgument)
    );
    assert_eq!(ctx.debate, before);
    assert_eq!(
        cast_vote(&mut ctx, "a".repeat(32), VoteOption::Support, 50, "r".repeat(128), 1),
        Ok(())
    );
}

#[test]
fn double_vote_rejection() {
    let mut ctx = CastVote { debate: created_debate("d1"), voter: outsider_key() };
    assert_eq!(
        cast_vote(&mut ctx, "ag1".to_string(), VoteOption::Support, 50, String::new(), 1),
        Ok(())
    );
    let before = ctx.debate.clone();
    assert_eq!(
        cast_vote(&mut ctx, "ag1".to_string(), VoteOption::Oppose, 90, String::new(), 2),
        Err(ErrorCode::AlreadyVoted)
    );
    assert_eq!(ctx.debate.votes.len(), 1);
    assert_eq!(ctx.debate, before);
    assert_eq!(ctx.debate.votes[0].vote_option, VoteOption::Support);
    assert_eq!(ctx.debate.votes[0].confidence, 50);
}

#[test]
fn cast_vote_finds_an_earlier_ballot_anywhere() {
    let debate = debate_with_ballots(
        "d1",
        &[("a", VoteOption::Support, 1), ("b", VoteOption::Support, 1), ("c", VoteOption::Support, 1)],
    );
    for agent in ["a", "b", "c"] {
        let mut ctx = CastVote { debate: debate.clone(), voter: outsider_key() };
        assert_eq!(
            cast_vote(&mut ctx, agent.to_string(), VoteOption::Neutral, 5, String::new(), 1),
            Err(ErrorCode::AlreadyVoted)
        );
    }
    let mut ctx = CastVote { debate, voter: outsider_key() };
    assert_eq!(
        cast_vote(&mut ctx, "A".to_string(), VoteOption::Neutral, 5, String::new(), 1),
        Ok(())
    );
}

#[test]
fn cast_vote_stops_at_twenty_ballots() {
    let mut ctx = CastVote { debate: created_debate("d1"), voter: outsider_key() };
    for i in 0..20 {
        assert_eq!(
            cast_vote(&mut ctx, format!("agent-{i}"), VoteOption::Support, 10, String::new(), 1),
            Ok(())
        );
    }
    assert_eq!(ctx.debate.votes.len(), 20);
    let before = ctx.debate.clone();
    assert_eq!(
        cast_vote(&mut ctx, "agent-20".to_string(), VoteOption::Support, 10, String::new(), 1),
        Err(ErrorCode::CapacityExceeded)
    );
    assert_eq!(ctx.debate, before);
    // An agent with a ballot on record is told so, full or not.
    assert_eq!(
        cast_vote(&mut ctx, "agent-3".to_string(), VoteOption::Support, 10, String::new(), 1),
        Err(ErrorCode::AlreadyVoted)
    );
}

#[test]
fn cast_vote_needs_an_active_debate() {
    let tallied = tallied_debate("d1", &[("a", VoteOption::Support, 50)]);
    for debate in [tallied, closed_debate("d2")] {
        let mut ctx = CastVote { debate, voter: outsider_key() };
        let before = ctx.debate.clone();
        assert_eq!(
            cast_vote(&mut ctx, "late".to_string(), VoteOption::Support, 50, String::new(), 1),
            Err(ErrorCode::DebateNotActive)
        );
        assert_eq!(ctx.debate, before);
    }
}

#[test]
fn cast_vote_reports_the_stage_first() {
    let mut ctx = CastVote { debate: closed_debate("d1"), voter: outsider_key() };
    assert_eq!(
        cast_vote(&mut ctx, "a".to_string(), VoteOption::Support, 200, String::new(), 1),
        Err(ErrorCode::DebateNotActive)
    );
}

#[test]
fn weighted_tally() {
    let mut init = InitializeDebate { debate: None, authority: chair_key() };
    assert_eq!(initialize_debate(&mut init, "d1".to_string(), "topic".to_string(), 1, 10), Ok(()));
    let mut cast = CastVote { debate: init.debate.unwrap(), voter: outsider_key() };
    for (agent, option, confidence) in [
        ("ag1", VoteOption::Support, 80u8),
        ("ag2", VoteOption::Support, 40),
        ("ag3", VoteOption::Oppose, 90),
        ("ag4", VoteOption::Abstain, 100),
    ] {
        assert_eq!(
            cast_vote(&mut cast, agent.to_string(), option, confidence, String::new(), 20),
            Ok(())
        );
    }
    let mut tally = TallyVotes { debate: cast.debate, authority: chair_key() };
    assert_eq!(tally_votes(&mut tally, 30), Ok(()));
    assert_eq!(tally.debate.support_score, 120);
    assert_eq!(tally.debate.oppose_score, 90);
    assert_eq!(tally.debate.neutral_score, 0);
    assert_eq!(tally.debate.outcome, Some(VoteOption::Support));
    assert!(tally.debate.votes_tallied);
    assert_eq!(tally.debate.status, DebateStatus::Completed);
    assert_eq!(tally.debate.completion_timestamp, 30);

    let results = get_results(&GetResults { debate: tally.debate }).unwrap();
    assert_eq!(
        results,
        VoteResults {
            debate_id: "d1".to_string(),
            outcome: VoteOption::Support,
            support_score: 120,
            oppose_score: 90,
            neutral_score: 0,
            total_votes: 4,
        }
    );
}

#[test]
fn tie_gives_neutral() {
    let debate =
        tallied_debate("d1", &[("a", VoteOption::Support, 50), ("b", VoteOption::Oppose, 50)]);
    assert_eq!(debate.support_score, 50);
    assert_eq!(debate.oppose_score, 50);
    assert_eq!(debate.neutral_score, 0);
    assert_eq!(debate.outcome, Some(VoteOption::Neutral));
}

#[test]
fn tally_picks_the_strict_maximum() {
    let oppose = tallied_debate(
        "d1",
        &[("a", VoteOption::Support, 30), ("b", VoteOption::Oppose, 31), ("c", VoteOption::Neutral, 30)],
    );
    assert_eq!(oppose.outcome, Some(VoteOption::Oppose));
    assert_eq!((oppose.support_score, oppose.oppose_score, oppose.neutral_score), (30, 31, 30));

    let neutral = tallied_debate(
        "d2",
        &[("a", VoteOption::Support, 30), ("b", VoteOption::Oppose, 31), ("c", VoteOption::Neutral, 99)],
    );
    assert_eq!(neutral.outcome, Some(VoteOption::Neutral));

    // Support leads oppose but ties with neutral: nobody is strictly ahead.
    let tied_with_neutral = tallied_debate(
        "d3",
        &[("a", VoteOption::Support, 60), ("b", VoteOption::Oppose, 10), ("c", VoteOption::Neutral, 60)],
    );
    assert_eq!(tied_with_neutral.outcome, Some(VoteOption::Neutral));

    let support = tallied_debate("d4", &[("a", VoteOption::Support, 1)]);
    assert_eq!(support.outcome, Some(VoteOption::Support));
    assert_eq!((support.support_score, support.oppose_score, support.neutral_score), (1, 0, 0));
}

#[test]
fn tally_of_abstentions_is_neutral() {
    let debate =
        tallied_debate("d1", &[("a", VoteOption::Abstain, 100), ("b", VoteOption::Abstain, 100)]);
    assert_eq!((debate.support_score, debate.oppose_score, debate.neutral_score), (0, 0, 0));
    assert_eq!(debate.outcome, Some(VoteOption::Neutral));

    let zero_confidence = tallied_debate("d2", &[("a", VoteOption::Support, 0)]);
    assert_eq!(zero_confidence.outcome, Some(VoteOption::Neutral));
}

#[test]
fn tally_of_a_full_debate() {
    let agents: Vec<String> = (0..20).map(|i| format!("agent-{i}")).collect();
    let ballots: Vec<(&str, VoteOption, u8)> =
        agents.iter().map(|agent| (agent.as_str(), VoteOption::Oppose, 100u8)).collect();
    let debate = tallied_debate("d1", &ballots);
    assert_eq!(debate.oppose_score, 2000);
    assert_eq!(debate.support_score, 0);
    assert_eq!(debate.outcome, Some(VoteOption::Oppose));
}

#[test]
fn tally_caps_scores_at_sixteen_bits() {
    // A record that no sequence of calls produces: 700 ballots of 100 for
    // support and 660 of 100 for oppose. Both totals exceed what is stored,
    // and the outcome still goes by the totals.
    let mut votes = Vec::new();
    for i in 0..700 {
        votes.push(ballot(&format!("s{i}"), VoteOption::Support, 100));
    }
    for i in 0..660 {
        votes.push(ballot(&format!("o{i}"), VoteOption::Oppose, 100));
    }
    votes.push(ballot("n", VoteOption::Neutral, 255));
    let debate = Debate { votes, ..created_debate("d1") };
    let mut ctx = TallyVotes { debate, authority: chair_key() };
    assert_eq!(tally_votes(&mut ctx, 1), Ok(()));
    assert_eq!(ctx.debate.support_score, 65535);
    assert_eq!(ctx.debate.oppose_score, 65535);
    assert_eq!(ctx.debate.neutral_score, 255);
    assert_eq!(ctx.debate.outcome, Some(VoteOption::Support));
}

#[test]
fn tally_votes_needs_a_ballot() {
    let mut ctx = TallyVotes { debate: created_debate("d1"), authority: chair_key() };
    let before = ctx.debate.clone();
    assert_eq!(tally_votes(&mut ctx, 1), Err(ErrorCode::NoVotes));
    assert_eq!(ctx.debate, before);
    assert_eq!(ctx.debate.outcome, None);
}

#[test]
fn tally_votes_refuses_a_stranger() {
    let mut ctx = TallyVotes {
        debate: debate_with_ballots("d1", &[("a", VoteOption::Support, 50)]),
        authority: outsider_key(),
    };
    let before = ctx.debate.clone();
    assert_eq!(tally_votes(&mut ctx, 1), Err(ErrorCode::Unauthorized));
    assert_eq!(ctx.debate, before);
    assert!(!ctx.debate.votes_tallied);
    assert_eq!(ctx.debate.status, DebateStatus::Active);
}

#[test]
fn tally_votes_runs_once() {
    let mut ctx = TallyVotes {
        debate: tallied_debate("d1", &[("a", VoteOption::Support, 50)]),
        authority: chair_key(),
    };
    let before = ctx.debate.clone();
    assert_eq!(tally_votes(&mut ctx, 9_999), Err(ErrorCode::DebateNotActive));
    assert_eq!(ctx.debate, before);
    assert_eq!(ctx.debate.completion_timestamp, 700);

    let mut ctx = TallyVotes { debate: closed_debate("d2"), authority: chair_key() };
    assert_eq!(tally_votes(&mut ctx, 1), Err(ErrorCode::DebateNotActive));
}

#[test]
fn close_debate_closes_an_active_debate() {
    let mut ctx = CloseDebate {
        debate: debate_with_ballots("d1", &[("a", VoteOption::Support, 50)]),
        authority: chair_key(),
    };
    let before = ctx.debate.clone();
    assert_eq!(close_debate(&mut ctx), Ok(()));
    assert_eq!(ctx.debate, Debate { status: DebateStatus::Closed, ..before });
    assert!(!ctx.debate.votes_tallied);
    assert_eq!(ctx.debate.outcome, None);
}

#[test]
fn close_debate_is_idempotent() {
    let mut ctx = CloseDebate { debate: closed_debate("d1"), authority: chair_key() };
    let before = ctx.debate.clone();
    assert_eq!(close_debate(&mut ctx), Ok(()));
    assert_eq!(close_debate(&mut ctx), Ok(()));
    assert_eq!(ctx.debate, before);
}

#[test]
fn close_debate_leaves_a_completed_debate() {
    let mut ctx = CloseDebate {
        debate: tallied_debate("d1", &[("a", VoteOption::Support, 50)]),
        authority: chair_key(),
    };
    let before = ctx.debate.clone();
    assert_eq!(close_debate(&mut ctx), Err(ErrorCode::DebateNotActive));
    assert_eq!(ctx.debate, before);
    assert_eq!(ctx.debate.status, DebateStatus::Completed);
}

#[test]
fn close_debate_refuses_a_stranger() {
    for debate in [created_debate("d1"), closed_debate("d2")] {
        let mut ctx = CloseDebate { debate, authority: outsider_key() };
        let before = ctx.debate.clone();
        assert_eq!(close_debate(&mut ctx), Err(ErrorCode::Unauthorized));
        assert_eq!(ctx.debate, before);
    }
}

#[test]
fn get_results_needs_a_tally() {
    let active = debate_with_ballots("d1", &[("a", VoteOption::Support, 50)]);
    assert_eq!(get_results(&GetResults { debate: active }), Err(ErrorCode::VotesNotTallied));
    assert_eq!(
        get_results(&GetResults { debate: closed_debate("d2") }),
        Err(ErrorCode::VotesNotTallied)
    );
    // A record marked tallied without an outcome is refused, not read.
    let damaged = Debate { votes_tallied: true, ..created_debate("d3") };
    assert_eq!(get_results(&GetResults { debate: damaged }), Err(ErrorCode::VotesNotTallied));
    // An outcome without the mark is no tally either.
    let unmarked = Debate { outcome: Some(VoteOption::Support), ..created_debate("d4") };
    assert_eq!(get_results(&GetResults { debate: unmarked }), Err(ErrorCode::VotesNotTallied));
}

#[test]
fn get_results_is_repeatable_and_reads_only() {
    let ctx = GetResults {
        debate: tallied_debate(
            "d1",
            &[("a", VoteOption::Oppose, 70), ("b", VoteOption::Support, 20)],
        ),
    };
    let before = ctx.debate.clone();
    let first = get_results(&ctx);
    let second = get_results(&ctx);
    assert_eq!(first, second);
    assert_eq!(
        first,
        Ok(VoteResults {
            debate_id: "d1".to_string(),
            outcome: VoteOption::Oppose,
            support_score: 20,
            oppose_score: 70,
            neutral_score: 0,
            total_votes: 2,
        })
    );
    assert_eq!(ctx.debate, before);
}

#[test]
fn get_results_caps_the_count_at_sixteen_bits() {
    let votes: Vec<Vote> = (0..65_540).map(|_| ballot("x", VoteOption::Abstain, 0)).collect();
    let debate = Debate {
        votes,
        votes_tallied: true,
        outcome: Some(VoteOption::Neutral),
        status: DebateStatus::Completed,
        ..created_debate("d1")
    };
    let results = get_results(&GetResults { debate }).unwrap();
    assert_eq!(results.total_votes, 65535);
}

#[test]
fn ballots_are_unique_and_bounded() {
    let mut ctx = CastVote { debate: created_debate("d1"), voter: outsider_key() };
    let attempts = [
        ("a", 10u8),
        ("b", 100),
        ("a", 20),
        ("c", 101),
        ("c", 0),
        ("b", 250),
        ("d", 55),
    ];
    for (agent, confidence) in attempts {
        let _ = cast_vote(&mut ctx, agent.to_string(), VoteOption::Support, confidence, String::new(), 1);
    }
    let votes = &ctx.debate.votes;
    assert_eq!(votes.len(), 4);
    for (i, first) in votes.iter().enumerate() {
        assert!(first.confidence <= 100);
        for second in votes.iter().skip(i + 1) {
            assert_ne!(first.agent_id, second.agent_id);
        }
    }
}

#[test]
fn recorded_tally_matches_the_ballots() {
    let debate = tallied_debate(
        "d1",
        &[
            ("a", VoteOption::Support, 15),
            ("b", VoteOption::Neutral, 95),
            ("c", VoteOption::Oppose, 40),
            ("d", VoteOption::Neutral, 5),
            ("e", VoteOption::Abstain, 99),
            ("f", VoteOption::Oppose, 59),
        ],
    );
    let total = |option: VoteOption| -> u16 {
        debate
            .votes
            .iter()
            .filter(|vote| vote.vote_option == option)
            .map(|vote| vote.confidence as u16)
            .sum()
    };
    assert!(debate.votes_tallied);
    assert_eq!(debate.support_score, total(VoteOption::Support));
    assert_eq!(debate.oppose_score, total(VoteOption::Oppose));
    assert_eq!(debate.neutral_score, total(VoteOption::Neutral));
    assert_eq!((debate.support_score, debate.oppose_score, debate.neutral_score), (15, 99, 100));
    assert_eq!(debate.outcome, Some(VoteOption::Neutral));
}

#[test]
fn status_and_ballots_only_grow() {
    let mut history = Vec::new();
    let mut debate = created_debate("d1");
    history.push((debate.status, debate.votes.clone()));

    let mut cast = CastVote { debate, voter: outsider_key() };
    let _ = cast_vote(&mut cast, "a".to_string(), VoteOption::Support, 50, String::new(), 1);
    history.push((cast.debate.status, cast.debate.votes.clone()));
    let _ = cast_vote(&mut cast, "a".to_string(), VoteOption::Oppose, 50, String::new(), 2);
    history.push((cast.debate.status, cast.debate.votes.clone()));
    let _ = cast_vote(&mut cast, "b".to_string(), VoteOption::Oppose, 20, String::new(), 3);
    history.push((cast.debate.status, cast.debate.votes.clone()));
    debate = cast.debate;

    let mut tally = TallyVotes { debate, authority: chair_key() };
    assert_eq!(tally_votes(&mut tally, 4), Ok(()));
    history.push((tally.debate.status, tally.debate.votes.clone()));
    debate = tally.debate;

    let mut cast = CastVote { debate, voter: outsider_key() };
    let _ = cast_vote(&mut cast, "c".to_string(), VoteOption::Oppose, 20, String::new(), 5);
    history.push((cast.debate.status, cast.debate.votes.clone()));
    debate = cast.debate;

    let mut close = CloseDebate { debate, authority: chair_key() };
    let _ = close_debate(&mut close);
    history.push((close.debate.status, close.debate.votes.clone()));

    for pair in history.windows(2) {
        let (earlier_status, earlier_votes) = &pair[0];
        let (later_status, later_votes) = &pair[1];
        assert!(earlier_status.wire_value() <= later_status.wire_value());
        assert!(later_votes.starts_with(earlier_votes));
        if later_votes.len() > earlier_votes.len() {
            assert_eq!(*earlier_status, DebateStatus::Active);
        }
    }
    let lengths: Vec<usize> = history.iter().map(|(_, votes)| votes.len()).collect();
    assert_eq!(lengths, vec![0, 1, 1, 2, 2, 2, 2]);
    assert_eq!(history.last().unwrap().0, DebateStatus::Completed);
}

#[test]
fn debate_clone_keeps_every_field() {
    let debate = tallied_debate("d1", &[("a", VoteOption::Support, 50)]);
    let copy = debate.clone();
    assert_eq!(copy, debate);
    assert_eq!(copy.authority, chair_key());
    assert_ne!(copy.authority, outsider_key());
}

#[test]
fn vote_option_wire_values() {
    let options = [
        (VoteOption::Support, 0u8),
        (VoteOption::Oppose, 1),
        (VoteOption::Neutral, 2),
        (VoteOption::Abstain, 3),
    ];
    for (option, value) in options {
        assert_eq!(option.wire_value(), value);
        assert_eq!(VoteOption::from_wire(value), Some(option));
    }
    assert_eq!(VoteOption::from_wire(4), None);
}

#[test]
fn debate_status_wire_values() {
    let stages =
        [(DebateStatus::Active, 0u8), (DebateStatus::Completed, 1), (DebateStatus::Closed, 2)];
    for (status, value) in stages {
        assert_eq!(status.wire_value(), value);
        assert_eq!(DebateStatus::from_wire(value), Some(status));
    }
    assert_eq!(DebateStatus::from_wire(3), None);
}

#[test]
fn debate_error_codes() {
    assert_eq!(ErrorCode::DebateNotActive.code(), Some(6100));
    assert_eq!(ErrorCode::InvalidConfidence.code(), Some(6101));
    assert_eq!(ErrorCode::AlreadyVoted.code(), Some(6102));
    assert_eq!(ErrorCode::NoVotes.code(), Some(6103));
    assert_eq!(ErrorCode::VotesNotTallied.code(), Some(6104));
    assert_eq!(ErrorCode::AlreadyExists.code(), None);
    assert_eq!(ErrorCode::InvalidArgument.code(), None);
    assert_eq!(ErrorCode::Unauthorized.code(), None);
    assert_eq!(ErrorCode::CapacityExceeded.code(), None);
}

#[test]
fn debates_stay_well_formed() {
    assert!(created_debate("d1").is_well_formed());
    assert!(closed_debate("d1").is_well_formed());
    let ballots = [
        ("a", VoteOption::Support, 100),
        ("b", VoteOption::Oppose, 0),
        ("c", VoteOption::Abstain, 50),
    ];
    assert!(debate_with_ballots("d1", &ballots).is_well_formed());
    let tallied = tallied_debate("d1", &ballots);
    assert!(tallied.is_well_formed());
    assert!(tallied.tally_matches_ballots());

    let mut ctx = CastVote { debate: tallied, voter: outsider_key() };
    assert!(cast_vote(&mut ctx, "d".to_string(), VoteOption::Support, 1, String::new(), 1).is_err());
    assert!(ctx.debate.is_well_formed());
}

#[test]
fn damaged_debates_are_not_well_formed() {
    let sound = tallied_debate(
        "d1",
        &[("a", VoteOption::Support, 80), ("b", VoteOption::Oppose, 30)],
    );
    assert!(sound.is_well_formed());
    assert_eq!(sound.outcome, Some(VoteOption::Support));

    let mut repeated = sound.votes.clone();
    repeated[1].agent_id = "a".to_string();
    let mut overconfident = sound.votes.clone();
    overconfident[0].confidence = 101;
    let mut wordy = sound.votes.clone();
    wordy[0].reasoning = "r".repeat(129);
    let mut crowded = Vec::new();
    for i in 0..21 {
        crowded.push(ballot(&format!("agent-{i}"), VoteOption::Abstain, 0));
    }

    let damaged = [
        Debate { debate_id: "d".repeat(33), ..sound.clone() },
        Debate { topic: "t".repeat(129), ..sound.clone() },
        Debate { current_round: 2, ..sound.clone() },
        Debate { support_score: 81, ..sound.clone() },
        Debate { oppose_score: 0, ..sound.clone() },
        Debate { neutral_score: 1, ..sound.clone() },
        Debate { outcome: Some(VoteOption::Oppose), ..sound.clone() },
        Debate { outcome: Some(VoteOption::Abstain), ..sound.clone() },
        Debate { outcome: None, ..sound.clone() },
        Debate { votes_tallied: false, ..sound.clone() },
        Debate { status: DebateStatus::Active, ..sound.clone() },
        Debate { status: DebateStatus::Closed, ..sound.clone() },
        Debate { votes: repeated, ..sound.clone() },
        Debate { votes: overconfident, ..sound.clone() },
        Debate { votes: wordy, ..sound.clone() },
        Debate { votes: vec![sound.votes[0].clone()], ..sound.clone() },
        Debate { votes: Vec::new(), ..sound.clone() },
        Debate { votes: crowded, ..created_debate("d2") },
        Debate { outcome: Some(VoteOption::Neutral), ..created_debate("d3") },
    ];
    for debate in damaged {
        assert!(!debate.is_well_formed(), "{debate:?}");
    }
}

#[test]
fn votes_know_their_bounds() {
    assert!(ballot("a", VoteOption::Support, 100).is_well_formed());
    assert!(!ballot("a", VoteOption::Support, 101).is_well_formed());
    assert!(!ballot(&"a".repeat(33), VoteOption::Support, 1).is_well_formed());
    let wordy = Vote { reasoning: "\u{20AC}".repeat(43), ..ballot("a", VoteOption::Support, 1) };
    assert!(!wordy.is_well_formed());
    let terse = Vote { reasoning: "\u{20AC}".repeat(42), ..ballot("a", VoteOption::Support, 1) };
    assert!(terse.is_well_formed());
}
