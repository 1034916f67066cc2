//! Setup, night order, day votes, registration, randomness and the store.

use botc_mcp::game::ability::info::empath_true_count;
use botc_mcp::game::ability::register::register_evil;
use botc_mcp::game::day::meets_threshold;
use botc_mcp::game::night::build_first_night_queue;
use botc_mcp::game::setup::{build_bag, composition, try_composition};
use botc_mcp::game::{
    DayStage, Game, GameError, GameId, NightStep, Phase, RoleAssignment, SeatId, StartOpts,
};
use botc_mcp::rng::SeededRng;
use botc_mcp::roles::{Character, CharacterType};
use botc_mcp::store::GameStore;
use rand::{Rng, RngCore, SeedableRng};

fn names(n: usize) -> Vec<String> {
    (0..n).map(|i| format!("P{i}")).collect()
}

fn started(assignments: Vec<RoleAssignment>, seed: u64) -> Game {
    let lobby = Game::create(names(assignments.len()), seed).unwrap();
    let host = lobby.host_token.clone();
    let mut g = lobby.game;
    g.start_game(&host, StartOpts { assignments: Some(assignments), ..Default::default() })
        .unwrap();
    g
}

fn five(
    a0: Character,
    a1: Character,
    a2: Character,
    a3: Character,
    a4: Character,
    seed: u64,
) -> Game {
    started(
        vec![
            RoleAssignment::normal(SeatId(0), a0),
            RoleAssignment::normal(SeatId(1), a1),
            RoleAssignment::normal(SeatId(2), a2),
            RoleAssignment::normal(SeatId(3), a3),
            RoleAssignment::normal(SeatId(4), a4),
        ],
        seed,
    )
}

#[test]
fn empath_neighbors_count_unit() {
    // A Soldier, B Imp, C Empath, D Soldier, E Chef — Empath neighbors Imp + Soldier => 1
    let g = five(
        Character::Soldier,
        Character::Imp,
        Character::Empath,
        Character::Soldier,
        Character::Chef,
        11,
    );
    assert_eq!(empath_true_count(&g, SeatId(2)), 1);
}

#[test]
fn ordinary_evil_and_good_register_true() {
    let g = started(
        vec![
            RoleAssignment::normal(SeatId(0), Character::Empath),
            RoleAssignment::normal(SeatId(1), Character::Imp),
            RoleAssignment::normal(SeatId(2), Character::Poisoner),
            RoleAssignment::normal(SeatId(3), Character::Soldier),
            RoleAssignment::normal(SeatId(4), Character::Chef),
        ],
        1,
    );
    assert!(!register_evil(&g, SeatId(0), "t0"));
    assert!(register_evil(&g, SeatId(1), "t1"));
    assert!(register_evil(&g, SeatId(2), "t2"));
}

#[test]
fn threshold_six_needs_three() {
    assert!(!meets_threshold(2, 6));
    assert!(meets_threshold(3, 6));
    assert!(meets_threshold(4, 6));
}

#[test]
fn threshold_five_needs_three() {
    assert!(!meets_threshold(2, 5));
    assert!(meets_threshold(3, 5));
}

fn tiny_game() -> Game {
    started(
        vec![
            RoleAssignment::drunk(SeatId(0), Character::FortuneTeller).unwrap(),
            RoleAssignment::normal(SeatId(1), Character::Imp),
            RoleAssignment::normal(SeatId(2), Character::Poisoner),
            RoleAssignment::normal(SeatId(3), Character::Butler),
            RoleAssignment::normal(SeatId(4), Character::Spy),
        ],
        1,
    )
}

#[test]
fn drunk_fortune_teller_face_wakes_as_ft() {
    let g = tiny_game();
    // Queue was built at start; rebuild for assertion (same grimoire).
    let q = build_first_night_queue(&g);
    assert!(q.iter().any(|s| matches!(s, NightStep::FortuneTeller { seat: SeatId(0) })));
    assert!(q.iter().any(|s| matches!(s, NightStep::Butler { seat: SeatId(3) })));
    assert!(q.iter().any(|s| matches!(s, NightStep::Spy { seat: SeatId(4) })));
}

#[test]
fn start_game_ticks_to_poisoner_pending() {
    let g = tiny_game();
    let p = g.pending_night.as_ref().expect("pending after start");
    assert!(matches!(p.step, NightStep::Poisoner { seat: SeatId(2) }));
    assert_eq!(p.seat, SeatId(2));
}

#[test]
fn composition_8_unit() {
    let c = composition(8);
    assert_eq!((c.townsfolk, c.outsiders, c.minions, c.demons), (5, 1, 1, 1));
}

#[test]
fn baron_increases_outsiders() {
    // Call build with many seeds and check the invariant when Baron appears: outsiders == base+2.
    let mut found_baron = false;
    for seed in 0..200u64 {
        let rng = SeededRng::from_seed(seed);
        let bag = build_bag(&rng, 8).unwrap();
        let base = composition(8);
        let outs = bag
            .bag_set
            .iter()
            .filter(|c| c.character_type() == CharacterType::Outsider)
            .count();
        let tfs = bag
            .bag_set
            .iter()
            .filter(|c| c.character_type() == CharacterType::Townsfolk)
            .count();
        if bag.bag_set.contains(&Character::Baron) {
            found_baron = true;
            assert_eq!(outs, base.outsiders as usize + 2);
            assert_eq!(tfs, base.townsfolk as usize - 2);
        } else {
            assert_eq!(outs, base.outsiders as usize);
            assert_eq!(tfs, base.townsfolk as usize);
        }
        assert_eq!(bag.bag_set.len(), 8);
        assert!(bag.bag_set.contains(&Character::Imp));
    }
    assert!(found_baron, "expected some seed to include Baron");
}

#[test]
fn drunk_gets_townsfolk_face() {
    let mut found = false;
    for seed in 0..300u64 {
        let rng = SeededRng::from_seed(seed);
        let bag = build_bag(&rng, 8).unwrap();
        for a in &bag.assignments {
            if a.true_character == Character::Drunk {
                found = true;
                let face = a.believed_character.unwrap();
                assert_eq!(face.character_type(), CharacterType::Townsfolk);
            }
        }
    }
    assert!(found, "expected Drunk in some 8p bags");
}

#[test]
fn same_seed_same_substream_bytes_unit() {
    let a = SeededRng::from_seed(7);
    let b = SeededRng::from_seed(7);
    let x: u64 = a.substream("setup").gen();
    let y: u64 = b.substream("setup").gen();
    assert_eq!(x, y);
}

#[test]
fn salt_changes_substream_output() {
    let a = SeededRng::from_seed_and_salt(7, 0);
    let b = SeededRng::from_seed_and_salt(7, 1);
    let x: u64 = a.substream("setup").gen();
    let y: u64 = b.substream("setup").gen();
    assert_ne!(x, y);
}

#[test]
fn insert_assigns_monotonic_ids() {
    let mut store = GameStore::new();
    let a = Game::create(names(5), 1).unwrap();
    let b = Game::create(names(5), 2).unwrap();
    let id1 = store.insert(a.game);
    let id2 = store.insert(b.game);
    assert_eq!(id1, GameId(1));
    assert_eq!(id2, GameId(2));
    assert_eq!(store.get(id1).unwrap().seed, 1);
    assert_eq!(store.get_mut(id2).unwrap().seed, 2);
}

#[test]
fn default_insert_starts_at_game_id_one() {
    let mut store = GameStore::default();
    let created = Game::create(names(5), 0).unwrap();
    let id = store.insert(created.game);
    assert_eq!(id, GameId(1));
    assert_eq!(store.get(id).unwrap().id, GameId(1));
}

#[test]
fn streams_of_draws_move_on_and_repeat() {
    let mut a = SeededRng::from_seed(3).substream("draws");
    let mut b = SeededRng::from_seed(3).substream("draws");
    let first = a.gen();
    let second = a.gen();
    assert_ne!(first, second);
    assert_eq!(first, b.gen());
    assert_eq!(second, b.gen());
    for _ in 0..50 {
        assert!(a.gen_below(7) < 7);
        assert!(a.pick(3) < 3);
    }
    let mut order = a.shuffled(20);
    assert_ne!(order, (0..20).collect::<Vec<usize>>());
    order.sort();
    assert_eq!(order, (0..20).collect::<Vec<usize>>());
    assert!(a.gen_ratio(1, 1));
    assert!(!a.gen_ratio(0, 1));
}

#[test]
fn substreams_match_the_generator_behind_them() {
    let mut stream = botc_mcp::rng::Substream { seed: 99, pos: 0 };
    let mut plain = rand_chacha::ChaCha8Rng::seed_from_u64(99);
    assert_eq!(stream.gen(), plain.next_u64());
    assert_eq!(stream.gen_ratio(1, 2), plain.gen_ratio(1, 2));
    assert_eq!(stream.gen_below(10) as u64, plain.gen_range(0..10u64));
    assert_eq!(stream.gen(), plain.next_u64());
}

#[test]
fn player_counts_outside_the_table_are_refused() {
    assert!(Game::create(names(4), 1).is_err());
    assert!(Game::create(names(16), 1).is_err());
    for n in 5..=15usize {
        assert_eq!(Game::create(names(n), 1).unwrap().game.seats.len(), n);
    }
}

#[test]
fn every_table_size_starts_and_deals_one_imp() {
    for n in 5..=15usize {
        for seed in 0..8u64 {
            let lobby = Game::create(names(n), seed).unwrap();
            let host = lobby.host_token.clone();
            let mut g = lobby.game;
            g.start_game(&host, StartOpts::default()).unwrap();
            let imps =
                g.seats.iter().filter(|s| s.true_character == Some(Character::Imp)).count();
            assert_eq!(imps, 1);
            assert!(g.seats.iter().all(|s| s.true_character.is_some()));
            assert!(!matches!(g.phase, Phase::Lobby));
        }
    }
}

#[test]
fn only_the_host_starts_and_only_once() {
    let lobby = Game::create(names(5), 3).unwrap();
    let player = lobby.player_tokens[0].clone();
    let host = lobby.host_token.clone();
    let mut g = lobby.game;
    assert_eq!(g.start_game(&player, StartOpts::default()), Err(GameError::Unauthorized));
    assert_eq!(g.start_game(&host, StartOpts::default()), Ok(()));
    assert_eq!(g.start_game(&host, StartOpts::default()), Err(GameError::WrongPhase));
}

fn day_game() -> Game {
    let mut g = five(
        Character::Empath,
        Character::Soldier,
        Character::Chef,
        Character::Poisoner,
        Character::Imp,
        99,
    );
    g.phase = Phase::Day { day: 1, stage: DayStage::Discussion };
    g.pending_night = None;
    g.pending_host = None;
    g
}

#[test]
fn chat_is_for_the_day() {
    let mut g = day_game();
    assert_eq!(g.say(SeatId(0), "hello".into(), None), Ok(()));
    g.phase = Phase::Night { night: 2, cursor: 0 };
    assert_eq!(g.say(SeatId(0), "psst".into(), None), Err(GameError::WrongPhase));
}

#[test]
fn directed_says_are_capped_and_reset() {
    let mut g = day_game();
    assert!(g.say(SeatId(0), "x".into(), Some(SeatId(0))).is_err());
    assert_eq!(g.say(SeatId(0), "x".into(), Some(SeatId(9))), Err(GameError::NoSuchSeat));
    for _ in 0..6 {
        assert_eq!(g.say(SeatId(0), "you".into(), Some(SeatId(1))), Ok(()));
    }
    assert_eq!(g.pending_directed_wake, Some(SeatId(1)));
    assert!(matches!(
        g.say(SeatId(0), "again".into(), Some(SeatId(2))),
        Err(GameError::IllegalAction(_))
    ));
    g.reset_directed_say();
    assert_eq!(g.pending_directed_wake, None);
    assert_eq!(g.say(SeatId(0), "again".into(), Some(SeatId(2))), Ok(()));
}

#[test]
fn compositions_fill_the_table() {
    for n in 0..=255u8 {
        match try_composition(n) {
            Some(c) => {
                assert!((5..=15).contains(&n));
                assert_eq!(c, composition(n));
                assert_eq!(c.townsfolk + c.outsiders + c.minions + c.demons, n);
                assert_eq!(c.demons, 1);
            }
            None => assert!(!(5..=15).contains(&n)),
        }
    }
    let c = composition(15);
    assert_eq!((c.townsfolk, c.outsiders, c.minions, c.demons), (9, 2, 3, 1));
}
