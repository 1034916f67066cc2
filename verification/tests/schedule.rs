//! Turn routing and prompts.

use botc_mcp::game::{
    ChoiceSchema, DayStage, EndReason, Game, NightStep, OpenNomination, PendingHostDecision,
    PendingWake, Phase, SeatId, Winner,
};
use botc_mcp::harness::prompts::{host_task_tick, player_kickoff, player_task_tick};
use botc_mcp::harness::scheduler::{
    plan_ticks, wait_signature, HostTask, PlayerTask, SchedTarget, STALL_ESCALATE,
};

fn new_game(n: usize) -> Game {
    let names: Vec<String> = (0..n).map(|i| format!("P{i}")).collect();
    Game::create(names, 42).expect("create").game
}

#[test]
fn lobby_routes_to_host_start() {
    let g = new_game(7);
    assert_eq!(plan_ticks(&g, 0, 0), vec![SchedTarget::Host(HostTask::StartGame)]);
}

#[test]
fn ended_routes_to_nobody() {
    let mut g = new_game(7);
    g.phase = Phase::Ended { winner: Winner::Good, reason: EndReason::DemonDead };
    assert!(plan_ticks(&g, 0, 0).is_empty());
}

#[test]
fn night_pending_host_routes_to_host_only() {
    let mut g = new_game(7);
    g.phase = Phase::FirstNight { cursor: 0 };
    g.pending_host = Some(PendingHostDecision::NightInfo {
        seat: SeatId(0),
        step: NightStep::Washerwoman { seat: SeatId(0) },
        ability: "Washerwoman".into(),
        reason: "pair_info".into(),
        payload: None,
    });
    let plan = plan_ticks(&g, 0, 0);
    assert_eq!(plan.len(), 1);
    assert!(matches!(plan[0], SchedTarget::Host(HostTask::ResolveDecision { .. })));
}

fn poison_wake(prompt: &str) -> PendingWake {
    PendingWake {
        step: NightStep::Poisoner { seat: SeatId(3) },
        seat: SeatId(3),
        schema: ChoiceSchema::PickOne { any_seat: false, living_only: true, exclude_self: true },
        prompt: prompt.into(),
    }
}

#[test]
fn night_pending_wake_routes_to_that_seat_only() {
    let mut g = new_game(7);
    g.phase = Phase::FirstNight { cursor: 0 };
    g.pending_host = None;
    g.pending_night = Some(poison_wake("Choose a player to poison"));
    let plan = plan_ticks(&g, 0, 0);
    assert_eq!(
        plan,
        vec![SchedTarget::Player {
            seat: SeatId(3),
            task: PlayerTask::NightWake { prompt: "Choose a player to poison".into() }
        }]
    );
}

#[test]
fn night_idle_routes_to_host_advance() {
    let mut g = new_game(7);
    g.phase = Phase::Night { night: 2, cursor: 0 };
    g.pending_host = None;
    g.pending_night = None;
    assert_eq!(plan_ticks(&g, 0, 0), vec![SchedTarget::Host(HostTask::AdvanceNight)]);
}

#[test]
fn discussion_ticks_host_plus_one_rotating_player() {
    let mut g = new_game(7);
    g.phase = Phase::Day { day: 1, stage: DayStage::Discussion };
    let p0 = plan_ticks(&g, 0, 0);
    assert!(matches!(p0[0], SchedTarget::Host(HostTask::PaceDiscussion)));
    assert_eq!(p0.len(), 2);
    // rotation advances the chosen player
    let seat_a = match &plan_ticks(&g, 0, 0)[1] {
        SchedTarget::Player { seat, .. } => *seat,
        _ => panic!(),
    };
    let seat_b = match &plan_ticks(&g, 1, 0)[1] {
        SchedTarget::Player { seat, .. } => *seat,
        _ => panic!(),
    };
    assert_ne!(seat_a, seat_b);
}

fn open_vote_game() -> Game {
    let mut g = new_game(7);
    g.phase = Phase::Day { day: 1, stage: DayStage::Nominations };
    g.current_nomination = Some(OpenNomination {
        by: SeatId(0),
        target: SeatId(1),
        votes: vec![(SeatId(0), true)],
        passes: vec![],
    });
    g
}

fn voter_seats(plan: &[SchedTarget]) -> Vec<u8> {
    plan.iter()
        .filter_map(|t| match t {
            SchedTarget::Player { seat, task: PlayerTask::Vote { .. } } => Some(seat.0),
            _ => None,
        })
        .collect()
}

#[test]
fn open_vote_routes_to_unvoted_and_no_host_closer_before_stall() {
    let g = open_vote_game();
    let plan = plan_ticks(&g, 0, 0);
    let voters = voter_seats(&plan);
    assert!(!voters.contains(&0), "seat 0 already voted");
    assert!(voters.contains(&2));
    // The host must NOT be co-scheduled to close while votes are pending.
    assert!(
        !plan.iter().any(|t| matches!(t, SchedTarget::Host(HostTask::CloseVoting))),
        "host closer must not race un-voted seats"
    );
}

#[test]
fn open_vote_escalates_to_host_close_after_stall() {
    let g = open_vote_game();
    let plan = plan_ticks(&g, 0, STALL_ESCALATE);
    assert!(
        plan.iter().any(|t| matches!(t, SchedTarget::Host(HostTask::CloseVoting))),
        "a stalled vote should escalate to a host close"
    );
    // voters still ticked too
    assert!(voter_seats(&plan).contains(&2));
}

#[test]
fn stuck_night_wake_escalates_to_host_skip() {
    let mut g = new_game(7);
    g.phase = Phase::FirstNight { cursor: 0 };
    g.pending_host = None;
    g.pending_night = Some(poison_wake("poison"));
    // Below the threshold: only the seat.
    let below = plan_ticks(&g, 0, STALL_ESCALATE - 1);
    assert_eq!(below.len(), 1);
    assert!(matches!(below[0], SchedTarget::Player { .. }));
    // At the threshold: seat + host skip fallback.
    let at = plan_ticks(&g, 0, STALL_ESCALATE);
    assert!(at.iter().any(|t| matches!(
        t,
        SchedTarget::Host(HostTask::SkipStuckWake { seat }) if seat.0 == 3
    )));
    assert!(at.iter().any(|t| matches!(t, SchedTarget::Player { .. })));
}

#[test]
fn wait_signature_tracks_the_current_block() {
    // Discussion: no stall signature.
    let mut g = new_game(7);
    g.phase = Phase::Day { day: 1, stage: DayStage::Discussion };
    assert_eq!(wait_signature(&g), None);
    // Open vote: signature keyed on the nomination.
    let gv = open_vote_game();
    assert_eq!(wait_signature(&gv).as_deref(), Some("vote:0-1"));
    // A different nomination is a different signature (resets stall).
    assert_ne!(wait_signature(&gv), Some("vote:2-3".to_string()));
}

fn assert_guardrails(p: &str) {
    assert!(p.contains("## Actions you may take this turn"), "missing actions: {p}");
    assert!(p.contains("## What ends your turn"), "missing turn-end: {p}");
    // JSON examples render with single braces and a substituted game id.
    assert!(!p.contains("{{"), "doubled braces leaked: {p}");
    assert!(!p.contains("{gid}"), "gid placeholder not substituted: {p}");
    assert!(p.contains("\"game_id\": 7"), "example missing real game_id: {p}");
}

#[test]
fn player_turn_prompts_carry_guardrails() {
    let vote = player_task_tick(
        "P2",
        SeatId(2),
        7,
        &PlayerTask::Vote {
            nomination: "P0 nominated P1 for execution".into(),
            tally: "P0 YES — 1 of 6 eligible have acted".into(),
            can_pass: false,
            nominator_yes: true,
        },
        "phase: Day",
    );
    assert_guardrails(&vote);
    assert!(vote.contains("your turn to vote"));
    assert!(vote.contains("P0 YES"));
    assert!(
        vote.contains("nominator's yes is already"),
        "should state nominator yes when flag true: {vote}"
    );
    // Living voters must NOT be offered pass_vote (engine rejects it).
    assert!(!vote.contains("OR `pass_vote`"), "{vote}");
    assert!(vote.contains("at least half of the living players"));
    let ghost = player_task_tick(
        "P5",
        SeatId(5),
        7,
        &PlayerTask::Vote {
            nomination: "P0 nominated P1 for execution".into(),
            tally: "no votes yet — 5 eligible voters".into(),
            can_pass: true,
            nominator_yes: false,
        },
        "phase: Day",
    );
    assert!(
        ghost.contains("has not (yet) recorded a yes") || ghost.contains("not (yet)"),
        "should not invent nominator yes: {ghost}"
    );
    assert!(ghost.contains("pass_vote"), "dead voters may abstain: {ghost}");
    assert!(ghost.contains("ghost vote"));

    let talk = player_task_tick(
        "P1",
        SeatId(1),
        7,
        &PlayerTask::Discuss { round: 1, last_round: true, directed_reply: false },
        "phase: Day",
    );
    assert_guardrails(&talk);
    assert!(talk.contains("FINAL talk round"));
    // Discussion should not pressure a mandatory role claim.
    assert!(
        talk.to_lowercase().contains("not") && talk.to_lowercase().contains("required"),
        "discuss should discourage mandatory claims: {talk}"
    );
    assert!(
        !talk.contains("claim or dispute a role"),
        "old claim-push wording should be gone: {talk}"
    );

    let wake = player_task_tick(
        "P3",
        SeatId(3),
        7,
        &PlayerTask::NightWake { prompt: "Choose a player to poison".into() },
        "phase: Night",
    );
    assert_guardrails(&wake);
    assert!(wake.contains("Choose a player to poison"));

    let nom = player_task_tick("P0", SeatId(0), 7, &PlayerTask::Nominate, "phase: Day");
    assert_guardrails(&nom);
    assert!(nom.contains("your turn to nominate"));
}

#[test]
fn host_end_day_prompt_matches_stage() {
    let from_disc = host_task_tick(7, &HostTask::EndDay { in_discussion: true }, "s", "h");
    assert!(from_disc.contains("open_nominations"), "{from_disc}");
    assert!(
        from_disc.contains("open_nominations` only")
            || from_disc.to_lowercase().contains("do **not** call"),
        "must forbid bundling end_nominations: {from_disc}"
    );
    assert!(
        !from_disc.contains("then `end_nominations`")
            && !from_disc.contains("then end_nominations"),
        "must not instruct open+end in one wake: {from_disc}"
    );
    let from_noms = host_task_tick(7, &HostTask::EndDay { in_discussion: false }, "s", "h");
    assert!(from_noms.contains("end_nominations"));
    assert!(!from_noms.contains("open_nominations"), "{from_noms}");
}

#[test]
fn player_kickoff_covers_info_hygiene() {
    let p = player_kickoff("P0", SeatId(0), 1, 5);
    assert!(p.contains("## Table talk"), "{p}");
    assert!(p.to_lowercase().contains("nothing forces"), "{p}");
    assert!(
        p.to_lowercase().contains("mislead") || p.to_lowercase().contains("bluff"),
        "{p}"
    );
    assert!(p.to_lowercase().contains("anyone may lie"), "{p}");
    assert!(
        p.to_lowercase().contains("never woken") || p.to_lowercase().contains("never"),
        "kickoff should mention unverifiable night-wake claims: {p}"
    );
}

#[test]
fn discuss_prompt_warns_unverifiable_lies() {
    let talk = player_task_tick(
        "P1",
        SeatId(1),
        7,
        &PlayerTask::Discuss { round: 0, last_round: false, directed_reply: false },
        "phase: Day",
    );
    assert!(talk.to_lowercase().contains("everyone can lie"), "{talk}");
    assert!(talk.to_lowercase().contains("never woken"), "{talk}");
}

#[test]
fn everyone_speaks_before_anyone_speaks_again() {
    let mut g = new_game(7);
    g.phase = Phase::Day { day: 1, stage: DayStage::Discussion };
    let mut seen: Vec<u8> = Vec::new();
    for rotation in 0..7 {
        for t in plan_ticks(&g, rotation, 0) {
            if let SchedTarget::Player { seat, .. } = t {
                seen.push(seat.0);
            }
        }
    }
    seen.sort();
    assert_eq!(seen, vec![0, 1, 2, 3, 4, 5, 6]);
}

#[test]
fn directed_seats_reply_first() {
    let mut g = new_game(7);
    g.phase = Phase::Day { day: 1, stage: DayStage::Discussion };
    g.pending_directed_wake = Some(SeatId(5));
    let plan = plan_ticks(&g, 0, 0);
    assert!(plan.iter().any(|t| matches!(
        t,
        SchedTarget::Player {
            seat: SeatId(5),
            task: PlayerTask::Discuss { directed_reply: true, .. }
        }
    )));
}
