//! Days, nights and endings of concrete games.

use botc_mcp::auth::Token;
use botc_mcp::comms::PrivateMessage;
use botc_mcp::game::ability::evil::{complete_starpass, try_demon_kill, KillResult};
use botc_mcp::game::ability::info::resolve;
use botc_mcp::game::ability::protect::apply_monk_protect;
use botc_mcp::game::day::resolve_execution;
use botc_mcp::game::{
    DayStage, EndReason, Game, GameError, HostDecision, MayorRedirectChoice, NightActionPayload,
    NightStep, PendingHostDecision, Phase, RegistrationMode, RoleAssignment, SeatId, StChoiceMode, StartOpts,
    Winner,
};
use botc_mcp::rng::SeededRng;
use botc_mcp::roles::Character;

/// A game with these characters, in seat order, without Storyteller pauses or misregistration.
fn table(chars: &[Character]) -> (Game, Token) {
    let names = (0..chars.len()).map(|i| format!("P{i}")).collect();
    let lobby = Game::create_with_salt(names, 11, 7).unwrap();
    let mut game = lobby.game;
    game.start_game(
        &lobby.host_token,
        StartOpts {
            assignments: Some(
                chars
                    .iter()
                    .enumerate()
                    .map(|(i, c)| RoleAssignment::normal(SeatId(i as u8), *c))
                    .collect(),
            ),
            registration_mode: RegistrationMode::AlwaysTrue,
            st_choice_mode: StChoiceMode::Random,
            ..Default::default()
        },
    )
    .unwrap();
    (game, lobby.host_token)
}

/// The same on its first day, with the nominations open.
fn day_table(chars: &[Character]) -> (Game, Token) {
    let (mut game, host) = table(chars);
    game.phase = Phase::Day { day: 1, stage: DayStage::Nominations };
    game.pending_night = None;
    game.pending_host = None;
    (game, host)
}

const PLAIN: [Character; 5] = [
    Character::Empath,
    Character::Soldier,
    Character::Chef,
    Character::Poisoner,
    Character::Imp,
];

fn seat(i: u8) -> SeatId {
    SeatId(i)
}

/// Everyone named votes yes, every other living seat no; the nominator has voted already.
fn ballot(game: &mut Game, nominee: u8, yes: &[u8]) {
    for i in 0..game.seats.len() as u8 {
        let voted = match &game.current_nomination {
            Some(open) => open.votes.iter().any(|v| v.0 == seat(i)),
            None => true,
        };
        if game.seats[i as usize].alive && !voted {
            game.vote(seat(i), seat(nominee), yes.contains(&i)).unwrap();
        }
    }
}

#[test]
fn nominations_are_once_a_day_and_for_the_living() {
    let (mut g, _) = day_table(&PLAIN);
    g.seats[2].alive = false;
    assert!(g.nominate(seat(2), seat(0)).is_err());
    assert!(g.nominate(seat(0), seat(2)).is_err());
    assert_eq!(g.nominate(seat(0), seat(9)), Err(GameError::NoSuchSeat));
    assert!(g.current_nomination.is_none());
    g.nominate(seat(0), seat(1)).unwrap();
    // One window at a time.
    assert!(g.nominate(seat(3), seat(4)).is_err());
    ballot(&mut g, 1, &[]);
    // The dead with a vote left have to be heard too.
    assert!(g.current_nomination.is_some());
    g.pass_vote(seat(2)).unwrap();
    assert!(g.current_nomination.is_none());
    assert!(g.nominate(seat(0), seat(3)).is_err());
    assert!(g.nominate(seat(3), seat(1)).is_err());
    g.nominate(seat(3), seat(4)).unwrap();
    assert_eq!(g.day_nominators, vec![seat(0), seat(3)]);
    assert_eq!(g.day_nominees, vec![seat(1), seat(4)]);
}

#[test]
fn the_leader_is_executed() {
    let (mut g, host) = day_table(&PLAIN);
    g.nominate(seat(0), seat(1)).unwrap();
    ballot(&mut g, 1, &[0, 2, 3]);
    assert!(g.current_nomination.is_none());
    assert_eq!(g.closed_nominations[0].yes_votes, 3);
    assert!(g.seats[1].alive);
    g.end_nominations(&host).unwrap();
    assert!(!g.seats[1].alive);
    assert!(g.seats[1].ghost_vote_available);
    assert_eq!(g.winner, None);
    assert!(matches!(g.phase, Phase::Night { night: 2, .. }));
}

#[test]
fn ties_and_short_votes_execute_nobody() {
    let (mut g, host) = day_table(&PLAIN);
    g.nominate(seat(0), seat(1)).unwrap();
    ballot(&mut g, 1, &[0, 2, 3]);
    g.nominate(seat(1), seat(0)).unwrap();
    ballot(&mut g, 0, &[1, 2, 3]);
    g.end_nominations(&host).unwrap();
    assert!(g.seats.iter().all(|s| s.alive));
    let (mut g, host) = day_table(&PLAIN);
    g.nominate(seat(0), seat(1)).unwrap();
    ballot(&mut g, 1, &[0, 2]);
    g.end_nominations(&host).unwrap();
    assert!(g.seats.iter().all(|s| s.alive));
}

#[test]
fn one_response_per_seat_and_one_ghost_vote() {
    let (mut g, _) = day_table(&PLAIN);
    g.seats[2].alive = false;
    g.nominate(seat(0), seat(1)).unwrap();
    // The nominator stands behind the nomination.
    assert_eq!(g.current_nomination.as_ref().unwrap().votes, vec![(seat(0), true)]);
    assert!(matches!(g.vote(seat(0), seat(1), false), Err(GameError::IllegalAction(_))));
    assert!(g.vote(seat(0), seat(4), true).is_err());
    assert!(g.pass_vote(seat(0)).is_err());
    assert_eq!(g.vote(seat(2), seat(1), true), Ok(()));
    assert!(!g.seats[2].ghost_vote_available);
    ballot(&mut g, 1, &[]);
    assert!(g.current_nomination.is_none());
    g.nominate(seat(3), seat(4)).unwrap();
    assert_eq!(
        g.vote(seat(2), seat(4), true),
        Err(GameError::IllegalAction("ghost vote already spent"))
    );
    assert_eq!(
        g.pass_vote(seat(2)),
        Err(GameError::IllegalAction("ghost vote already spent"))
    );
}

#[test]
fn a_butler_votes_behind_the_master() {
    let (mut g, _) = day_table(&[
        Character::Butler,
        Character::Soldier,
        Character::Chef,
        Character::Poisoner,
        Character::Imp,
    ]);
    g.seats[0].butler_master = Some(seat(1));
    g.nominate(seat(2), seat(4)).unwrap();
    assert!(g.vote(seat(0), seat(4), true).is_err());
    g.vote(seat(1), seat(4), true).unwrap();
    assert_eq!(g.vote(seat(0), seat(4), true), Ok(()));
}

#[test]
fn an_executed_saint_loses() {
    let chars = [
        Character::Saint,
        Character::Soldier,
        Character::Chef,
        Character::Poisoner,
        Character::Imp,
    ];
    let (mut g, _) = day_table(&chars);
    resolve_execution(&mut g, seat(0));
    assert_eq!(g.winner, Some(Winner::Evil));
    assert_eq!(
        g.phase,
        Phase::Ended { winner: Winner::Evil, reason: EndReason::SaintExecuted }
    );
    let (mut g, _) = day_table(&chars);
    g.seats[0].poisoned = true;
    resolve_execution(&mut g, seat(0));
    assert_eq!(g.winner, None);
}

#[test]
fn a_mayor_among_three_wins_without_an_execution() {
    let (mut g, host) = day_table(&[
        Character::Mayor,
        Character::Soldier,
        Character::Chef,
        Character::Poisoner,
        Character::Imp,
    ]);
    g.seats[1].alive = false;
    g.seats[3].alive = false;
    g.end_nominations(&host).unwrap();
    assert_eq!(
        g.phase,
        Phase::Ended { winner: Winner::Good, reason: EndReason::MayorThreeNoExec }
    );
}

#[test]
fn the_scarlet_woman_follows_the_demon() {
    let chars = [
        Character::Empath,
        Character::Soldier,
        Character::Chef,
        Character::ScarletWoman,
        Character::Imp,
    ];
    let (mut g, _) = day_table(&chars);
    resolve_execution(&mut g, seat(4));
    assert_eq!(g.seats[3].true_character, Some(Character::Imp));
    assert_eq!(g.winner, None);
    // With four alive there is no succession.
    let (mut g, _) = day_table(&chars);
    g.seats[0].alive = false;
    resolve_execution(&mut g, seat(4));
    assert_eq!(g.seats[3].true_character, Some(Character::ScarletWoman));
    assert_eq!(g.phase, Phase::Ended { winner: Winner::Good, reason: EndReason::DemonDead });
    // Nothing moves any more.
    assert_eq!(g.nominate(seat(1), seat(2)), Err(GameError::GameEnded));
}

#[test]
fn slayers_shoot_once() {
    let chars = [
        Character::Slayer,
        Character::Soldier,
        Character::Chef,
        Character::Poisoner,
        Character::Imp,
    ];
    let (mut g, _) = day_table(&chars);
    assert!(g.day_action_slay(seat(1), seat(4)).is_err());
    g.day_action_slay(seat(0), seat(1)).unwrap();
    assert!(g.seats[1].alive);
    assert!(g.day_action_slay(seat(0), seat(4)).is_err());
    let (mut g, _) = day_table(&chars);
    g.seats[0].poisoned = true;
    // A poisoned shot is granted alike, and does nothing.
    assert_eq!(g.day_action_slay(seat(0), seat(4)), Ok(()));
    assert!(g.seats[4].alive);
    let (mut g, _) = day_table(&chars);
    g.day_action_slay(seat(0), seat(4)).unwrap();
    assert!(!g.seats[4].alive);
    assert_eq!(g.winner, Some(Winner::Good));
}

#[test]
fn the_virgin_strikes_once() {
    let chars = [
        Character::Empath,
        Character::Virgin,
        Character::Chef,
        Character::Poisoner,
        Character::Imp,
    ];
    let (mut g, _) = day_table(&chars);
    g.nominate(seat(0), seat(1)).unwrap();
    assert!(!g.seats[0].alive);
    assert!(g.seats[1].virgin_ability_used);
    assert_eq!(g.executed_today, Some(seat(0)));
    let (mut g, _) = day_table(&chars);
    g.nominate(seat(3), seat(1)).unwrap();
    assert!(g.seats[3].alive);
    assert!(g.current_nomination.is_some());
}

#[test]
fn shields_and_sobriety_decide_the_kill() {
    let (mut g, _) = table(&PLAIN);
    assert_eq!(try_demon_kill(&mut g, seat(4), seat(1)), KillResult::Survived);
    apply_monk_protect(&mut g, seat(0));
    assert_eq!(try_demon_kill(&mut g, seat(4), seat(0)), KillResult::Survived);
    assert!(g.seats.iter().all(|s| s.alive));
    assert_eq!(try_demon_kill(&mut g, seat(4), seat(2)), KillResult::Died(seat(2)));
    assert_eq!(try_demon_kill(&mut g, seat(4), seat(2)), KillResult::Sank);
    g.seats[4].poisoned = true;
    assert_eq!(try_demon_kill(&mut g, seat(4), seat(3)), KillResult::Survived);
    assert!(g.seats[3].alive);
    // A poisoned Soldier is not safe.
    g.seats[4].poisoned = false;
    g.seats[1].poisoned = true;
    assert_eq!(try_demon_kill(&mut g, seat(4), seat(1)), KillResult::Died(seat(1)));
}

#[test]
fn night_kills_are_hidden_until_dawn() {
    let (mut g, _) = table(&PLAIN);
    g.phase = Phase::Night { night: 2, cursor: 0 };
    try_demon_kill(&mut g, seat(4), seat(2));
    assert!(!g.seats[2].alive);
    assert!(g.public_seats()[2].alive);
    g.phase = Phase::Day { day: 2, stage: DayStage::Discussion };
    assert!(!g.public_seats()[2].alive);
}

#[test]
fn a_starpass_goes_on() {
    let (mut g, _) = table(&PLAIN);
    assert_eq!(
        try_demon_kill(&mut g, seat(4), seat(4)),
        KillResult::Starpass { dead_imp: seat(4), new_imp: seat(3) }
    );
    assert!(!g.seats[4].alive);
    assert_eq!(g.seats[3].true_character, Some(Character::Imp));
    assert_eq!(g.winner, None);
    // Without a living Minion it is the end.
    let (mut g, _) = table(&PLAIN);
    g.seats[3].alive = false;
    assert_eq!(try_demon_kill(&mut g, seat(4), seat(4)), KillResult::Died(seat(4)));
    assert_eq!(g.winner, Some(Winner::Good));
    let (mut g, _) = table(&PLAIN);
    complete_starpass(&mut g, seat(4), seat(3));
    assert_eq!(g.seats[3].true_character, Some(Character::Imp));
    assert!(!g.seats[4].alive);
}

#[test]
fn hosts_decide_where_an_attack_on_the_mayor_goes() {
    let (mut g, host) = table(&[
        Character::Mayor,
        Character::Soldier,
        Character::Chef,
        Character::Poisoner,
        Character::Imp,
    ]);
    g.phase = Phase::Night { night: 2, cursor: 0 };
    g.pending_night = None;
    g.pending_host = Some(PendingHostDecision::MayorRedirect {
        mayor: seat(0),
        living_others: vec![seat(1), seat(2), seat(3), seat(4)],
    });
    assert!(g
        .host_decide(&host, HostDecision::Registration { register: true })
        .is_err());
    assert_eq!(
        g.host_decide(
            &Token::from_shared("nobody"),
            HostDecision::MayorRedirect { choice: MayorRedirectChoice::Nobody }
        ),
        Err(GameError::Unauthorized)
    );
    g.host_decide(
        &host,
        HostDecision::MayorRedirect {
            choice: MayorRedirectChoice::KillOther { target: seat(2) },
        },
    )
    .unwrap();
    assert!(!g.seats[2].alive);
    assert!(g.seats[0].alive);
    assert!(g.pending_host.is_none());
}

#[test]
fn first_nights_wait_for_choices_and_can_be_skipped() {
    let (mut g, host) = table(&PLAIN);
    let pending = g.pending_night.as_ref().expect("the Poisoner chooses");
    assert_eq!(pending.seat, seat(3));
    assert!(g.apply_night_action(seat(0), NightActionPayload::Ack).is_err());
    assert!(g.apply_night_action(seat(3), NightActionPayload::Ack).is_err());
    g.apply_night_action(seat(3), NightActionPayload::PickOne { target: seat(0) }).unwrap();
    assert!(g.seats[0].poisoned);
    assert!(matches!(g.phase, Phase::Day { day: 1, stage: DayStage::Discussion }));
    let (mut g2, host2) = table(&PLAIN);
    g2.skip_night_action(&host2).unwrap();
    assert!(matches!(g2.phase, Phase::Day { day: 1, stage: DayStage::Discussion }));
    assert!(g.skip_night_action(&host).is_err());
}

/// How many of fifty Washerwoman results name the Washerwoman herself, the only Townsfolk, among
/// the two players.
fn results_with_the_only_townsfolk(mode: RegistrationMode, spy_poisoned: bool) -> usize {
    let mut named = 0;
    for seed in 0..50 {
        let (mut g, _) = table(&[
            Character::Washerwoman,
            Character::Spy,
            Character::Imp,
            Character::Butler,
            Character::Saint,
        ]);
        g.registration_mode = mode;
        g.seats[0].poisoned = false;
        g.seats[1].poisoned = spy_poisoned;
        g.rng = SeededRng::from_seed_and_salt(seed, 7);
        let effect = resolve(&mut g, NightStep::Washerwoman { seat: seat(0) }, None).unwrap();
        match &effect.private[0] {
            (SeatId(0), PrivateMessage::NightResult { text }) => {
                assert!(text.ends_with("is the Washerwoman."), "{text}");
                if text.contains("P0 (seat 0)") {
                    named += 1;
                }
            }
            other => panic!("{other:?}"),
        }
    }
    named
}

#[test]
fn pair_information_goes_by_the_registration_mode() {
    assert_eq!(results_with_the_only_townsfolk(RegistrationMode::AlwaysTrue, false), 50);
    // A Spy that cannot hide leaves the true holder alone.
    assert_eq!(results_with_the_only_townsfolk(RegistrationMode::AlwaysMisreg, true), 50);
    let always = results_with_the_only_townsfolk(RegistrationMode::AlwaysMisreg, false);
    let sometimes = results_with_the_only_townsfolk(RegistrationMode::Random, false);
    assert!(0 < always && always < 50, "{always}");
    assert!(always < sometimes && sometimes < 50, "{sometimes}");
}
