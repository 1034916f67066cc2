//! Balanced seating and the results corpus.

use botc_mcp::comms::PublicEvent;
use botc_mcp::game::{Game, Phase, RoleAssignment, SeatId, StartOpts};
use botc_mcp::harness::agents::{AgentConfig, AgentRole, AgentUsage, Backend};
use botc_mcp::harness::balance::{
    balanced_assignment, contest_of, node_key, read_history, read_model_stats,
    select_balanced_models, stats_of, Contest, History, ModelStats,
};
use botc_mcp::harness::results_log::{
    death_records_from_public, drain_public_events, log_game_abort, log_game_end,
    log_game_start, record_line, run_id_or_unknown, seats_snapshot,
};
use botc_mcp::json::Json;
use botc_mcp::rng::Substream;
use botc_mcp::roles::Character;
use serde_json::Value;

fn rng(seed: u64) -> Substream {
    Substream { seed, pos: 0 }
}

fn bump(t: &mut Vec<(String, u32)>, key: &str, by: u32) {
    match t.iter_mut().find(|(k, _)| k == key) {
        Some(e) => e.1 += by,
        None => t.push((key.to_string(), by)),
    }
}

/// Build one model's history from `(team, role_type, role, count)` rows.
fn model(rows: &[(&str, &str, &str, u32)]) -> ModelStats {
    let mut s = ModelStats::default();
    for (team, rt, role, c) in rows {
        s.games += c;
        bump(&mut s.team, team, *c);
        bump(&mut s.role_type, rt, *c);
        bump(&mut s.role, role, *c);
    }
    s
}

fn stats_with(rows: Vec<(&str, ModelStats)>) -> Vec<(String, ModelStats)> {
    rows.into_iter().map(|(m, s)| (m.to_string(), s)).collect()
}

/// History with per-model records and a set of games given as `(model, team)` seat lists.
fn hist_with(rows: Vec<(&str, ModelStats)>, games: &[&[(&str, &str)]]) -> History {
    let mut contests: Vec<Contest> = Vec::new();
    for game in games {
        let mut good: Vec<(String, u32)> = Vec::new();
        let mut evil: Vec<(String, u32)> = Vec::new();
        for (m, team) in *game {
            match *team {
                "Good" => bump(&mut good, m, 1),
                "Evil" => bump(&mut evil, m, 1),
                _ => {}
            }
        }
        if let Some(c) = contest_of(&good, &evil) {
            contests.push(c);
        }
    }
    History { models: stats_with(rows), contests }
}

/// Posterior covariance of the candidates in fixed point.
fn covariance(pool: &[&str], hist: &History) -> Vec<Vec<i64>> {
    let s = (400.0 / std::f64::consts::LN_10) / 350.0;
    let tau = s * s;
    let mut idx: Vec<String> = pool.iter().map(|p| p.to_string()).collect();
    for c in &hist.contests {
        for (m, _, _) in &c.shares {
            if !idx.contains(m) {
                idx.push(m.clone());
            }
        }
    }
    let n = idx.len();
    let mut a = vec![vec![0.0f64; 2 * n]; n];
    for i in 0..n {
        a[i][i] = tau;
        a[i][n + i] = 1.0;
    }
    for c in &hist.contests {
        for (mi, gi, ei) in &c.shares {
            for (mj, gj, ej) in &c.shares {
                let z = |g: &u32, e: &u32| {
                    *g as f64 / c.good_total as f64 - *e as f64 / c.evil_total as f64
                };
                let i = idx.iter().position(|m| m == mi).unwrap();
                let j = idx.iter().position(|m| m == mj).unwrap();
                a[i][j] += 0.25 * z(gi, ei) * z(gj, ej);
            }
        }
    }
    for col in 0..n {
        let d = a[col][col];
        for j in 0..2 * n {
            a[col][j] /= d;
        }
        for r in 0..n {
            if r != col {
                let f = a[r][col];
                for j in 0..2 * n {
                    a[r][j] -= f * a[col][j];
                }
            }
        }
    }
    let m = pool.len();
    (0..m)
        .map(|i| (0..m).map(|j| (a[i][n + j] * 1_099_511_627_776.0) as i64).collect())
        .collect()
}

fn select(chars: &[Character], pool: &[&str], hist: &History, seed: u64) -> Vec<usize> {
    let names: Vec<String> = pool.iter().map(|p| p.to_string()).collect();
    select_balanced_models(
        &chars.to_vec(),
        &names,
        hist,
        &covariance(pool, hist),
        &mut rng(seed),
    )
}

fn team_of(assigns: &[RoleAssignment], seat: u8) -> String {
    let a = assigns.iter().find(|a| a.seat.0 == seat).unwrap();
    format!("{:?}", a.true_character.team())
}

// 5p bag: 3 Townsfolk (Good), 1 Minion + 1 Demon (Evil).
fn bag_5p() -> Vec<(Character, Option<Character>)> {
    vec![
        (Character::Empath, None),
        (Character::FortuneTeller, None),
        (Character::Chef, None),
        (Character::Poisoner, None), // Minion
        (Character::Imp, None),      // Demon
    ]
}

fn deal(stats: &Vec<(String, ModelStats)>, models: [&str; 5], seed: u64) -> Vec<RoleAssignment> {
    let seats: Vec<SeatId> = (0..5).map(SeatId).collect();
    let models: Vec<String> = models.iter().map(|m| m.to_string()).collect();
    balanced_assignment(&seats, &models, &bag_5p(), stats, &mut rng(seed))
}

#[test]
fn team_balance_gives_evil_to_the_model_owed_evil() {
    // Strict owed-evil ordering by evil count: A(0) < D(1) < E(2) < C(3) < B(6).
    // With 2 Evil slots, the two lowest (A and D) must get Evil; B (most evil,
    // owed Good) must get Good. Asserting A + B is then deterministic.
    let stats = stats_with(vec![
        ("A", model(&[("Good", "Townsfolk", "Empath", 6)])),
        ("B", model(&[("Evil", "Minion", "Poisoner", 6)])),
        (
            "C",
            model(&[("Good", "Townsfolk", "Chef", 3), ("Evil", "Demon", "Imp", 3)]),
        ),
        (
            "D",
            model(&[("Good", "Townsfolk", "Chef", 5), ("Evil", "Minion", "Poisoner", 1)]),
        ),
        (
            "E",
            model(&[("Good", "Townsfolk", "Empath", 4), ("Evil", "Demon", "Imp", 2)]),
        ),
    ]);
    let a = deal(&stats, ["A", "B", "C", "D", "E"], 1);
    // A (never Evil) must be Evil; B (always Evil) must be Good.
    assert_eq!(team_of(&a, 0), "Evil", "A owed evil");
    assert_eq!(team_of(&a, 1), "Good", "B owed good");
    // D (evil=1) is the other owed-evil seat.
    assert_eq!(team_of(&a, 3), "Evil", "D is the second-most owed evil");
    // exactly 2 evil seats overall (valid composition preserved)
    let evil = (0..5).filter(|&s| team_of(&a, s) == "Evil").count();
    assert_eq!(evil, 2);
}

#[test]
fn role_type_breaks_team_ties_demon_to_least_demon() {
    // Two models both owed Evil equally but one has played the Demon a lot and the other a
    // Minion a lot -> Demon should go to the model with fewer Demon games (secondary axis).
    let stats = stats_with(vec![
        (
            "A",
            model(&[("Good", "Townsfolk", "Empath", 4), ("Evil", "Demon", "Imp", 4)]),
        ),
        (
            "B",
            model(&[("Good", "Townsfolk", "Chef", 4), ("Evil", "Minion", "Poisoner", 4)]),
        ),
        // fillers owed Good so A and B take the two Evil slots
        ("C", model(&[("Evil", "Minion", "Poisoner", 5)])),
        ("D", model(&[("Evil", "Demon", "Imp", 5)])),
        ("E", model(&[("Evil", "Minion", "Baron", 5)])),
    ]);
    let a = deal(&stats, ["A", "B", "C", "D", "E"], 7);
    // A and B are the two owed-evil seats; among them the Demon (Imp) must go to
    // B (fewer demon games) and the Minion (Poisoner) to A.
    let a_char = a.iter().find(|x| x.seat.0 == 0).unwrap().true_character;
    let b_char = a.iter().find(|x| x.seat.0 == 1).unwrap().true_character;
    assert_eq!(a_char, Character::Poisoner, "A (played Demon) gets the Minion");
    assert_eq!(b_char, Character::Imp, "B (played Minion) gets the Demon");
}

#[test]
fn specific_role_breaks_type_ties() {
    // A, B, C are all owed Good (heavy Evil history) and have played Townsfolk
    // equally — they differ only in *which* Townsfolk. A has played the Empath a
    // lot; B and C have not. With team and role type tied among them, the Empath
    // must avoid A (the tertiary axis). D and E (never Evil) take the Evil slots.
    let stats = stats_with(vec![
        (
            "A",
            model(&[("Evil", "Minion", "Poisoner", 8), ("Good", "Townsfolk", "Empath", 4)]),
        ),
        (
            "B",
            model(&[("Evil", "Minion", "Poisoner", 8), ("Good", "Townsfolk", "Chef", 4)]),
        ),
        (
            "C",
            model(&[("Evil", "Minion", "Poisoner", 8), ("Good", "Townsfolk", "Chef", 4)]),
        ),
        ("D", model(&[("Good", "Townsfolk", "Chef", 8)])),
        ("E", model(&[("Good", "Townsfolk", "Chef", 8)])),
    ]);
    let a = deal(&stats, ["A", "B", "C", "D", "E"], 5);
    let a_char = a.iter().find(|x| x.seat.0 == 0).unwrap().true_character;
    assert_eq!(team_of(&a, 0), "Good", "A is owed Good");
    assert_ne!(
        a_char,
        Character::Empath,
        "A over-played the Empath; it must go to a model that hasn't"
    );
    // D and E (evil=0) are the two owed-evil seats.
    assert_eq!(team_of(&a, 3), "Evil");
    assert_eq!(team_of(&a, 4), "Evil");
}

#[test]
fn only_known_models_drive_balance_new_models_fill_leftovers() {
    // One known model owed Good (all-evil history); the rest brand new (no
    // history). The known model must NOT be forced into Evil; a new seat takes
    // an Evil slot instead.
    let stats = stats_with(vec![("KNOWN", model(&[("Evil", "Demon", "Imp", 5)]))]);
    let a = deal(&stats, ["KNOWN", "new1", "new2", "new3", "new4"], 3);
    assert_eq!(team_of(&a, 0), "Good", "the known owed-Good model must get Good");
    // still exactly 2 evil among the new seats
    let evil = (0..5).filter(|&s| team_of(&a, s) == "Evil").count();
    assert_eq!(evil, 2);
}

#[test]
fn no_history_is_a_valid_random_assignment() {
    let a = deal(&Vec::new(), ["m", "m", "m", "m", "m"], 9);
    assert_eq!(a.len(), 5);
    let evil = (0..5).filter(|&s| team_of(&a, s) == "Evil").count();
    assert_eq!(evil, 2, "composition preserved even with no history");
}

#[test]
fn read_model_stats_counts_only_completed_games() {
    // Only `game_end` seats count. A `game_abort` or `game_start` for the same
    // model must be ignored — those games never reached the leaderboard, so
    // they carry no eval signal to balance against.
    let lines = [
        r#"{"event":"game_end","seats":[{"model":"grok","team":"Good","character_type":"Townsfolk","true_character":"Empath"}]}"#,
        r#"{"event":"game_abort","seats":[{"model":"grok","team":"Evil","character_type":"Demon","true_character":"Imp"}]}"#,
        r#"{"event":"game_start","seats":[{"model":"grok","team":"Evil","character_type":"Minion","true_character":"Poisoner"}]}"#,
    ];
    let stats = read_model_stats(&lines.join("\n"));
    let g = stats_of(&stats, "grok").expect("grok has one completed game");
    assert_eq!(g.games, 1, "only the game_end seat counts");
    assert_eq!(g.team_n("Good"), 1);
    assert_eq!(g.team_n("Evil"), 0, "aborted/started games must not count");
    assert_eq!(g.type_n("Townsfolk"), 1);
    assert_eq!(g.role_n("Empath"), 1);
}

#[test]
fn select_picks_owed_evil_model_for_the_evil_seats() {
    // Roles pinned: seats 0-2 Good/Townsfolk, seat 3 Minion, seat 4 Demon.
    let seat_chars = vec![
        Character::Empath,
        Character::FortuneTeller,
        Character::Chef,
        Character::Poisoner,
        Character::Imp,
    ];
    // Only TWO eligible candidates, so they must repeat across the five seats:
    // A has never been Evil (owed Evil); B has only ever been Evil (owed Good).
    let hist = hist_with(
        vec![
            ("A", model(&[("Good", "Townsfolk", "Empath", 8)])),
            ("B", model(&[("Evil", "Minion", "Poisoner", 8)])),
        ],
        &[],
    );
    let pool = ["A", "B"];
    let pick = select(&seat_chars, &pool, &hist, 21);
    let evil: Vec<&str> = [3usize, 4].iter().map(|&s| pool[pick[s]]).collect();
    assert!(
        evil.iter().all(|m| *m == "A"),
        "the never-Evil model must take the Evil seats, got {evil:?}"
    );
    // B (owed Good) should be picked up for Good seats rather than left unused.
    let good: Vec<&str> = [0usize, 1, 2].iter().map(|&s| pool[pick[s]]).collect();
    assert!(
        good.contains(&"B"),
        "the owed-Good model should take Good seats, got {good:?}"
    );
}

fn used(pick: &[usize]) -> usize {
    let mut v = pick.to_vec();
    v.sort();
    v.dedup();
    v.len()
}

#[test]
fn select_spreads_seats_instead_of_giving_one_model_everything() {
    // All-Townsfolk seats + two identical-history candidates: counting each
    // assignment as we go must spread them rather than hand every seat to one.
    let seat_chars = vec![
        Character::Empath,
        Character::FortuneTeller,
        Character::Chef,
        Character::Washerwoman,
    ];
    let hist = hist_with(
        vec![
            ("A", model(&[("Good", "Townsfolk", "Empath", 1)])),
            ("B", model(&[("Good", "Townsfolk", "Empath", 1)])),
        ],
        &[],
    );
    let pick = select(&seat_chars, &["A", "B"], &hist, 3);
    assert_eq!(used(&pick), 2, "both candidates used, not one hogging all seats");
}

/// A single model must never field **every** seat.
#[test]
fn select_never_fields_one_model_when_a_second_is_eligible() {
    let seat_chars = vec![
        Character::Washerwoman,
        Character::Librarian,
        Character::Chef,
        Character::Empath,
        Character::Monk,
        Character::Poisoner, // Evil
        Character::Imp,      // Evil
    ];
    let hist = hist_with(
        vec![
            ("fresh", model(&[("Good", "Townsfolk", "Empath", 1)])),
            (
                "veteran",
                model(&[("Good", "Townsfolk", "Empath", 40), ("Evil", "Demon", "Imp", 40)]),
            ),
        ],
        &[],
    );
    for seed in 0..64u64 {
        let pick = select(&seat_chars, &["fresh", "veteran"], &hist, seed);
        assert!(
            used(&pick) >= 2,
            "seed {seed}: a one-model table yields zero BT edges, got {pick:?}"
        );
    }
}

/// Match-up cost is the **primary** axis: with the count axes tied, the Good seats
/// must go to whoever is least covariant with the placed Evil side.
#[test]
fn select_targets_the_least_observed_matchup() {
    let seat_chars = vec![Character::Empath, Character::Chef, Character::Imp];
    // `owed_evil` has never been Evil, so it takes the Demon seat. `stranger` and
    // `rival` have *identical* records — only the covariance separates them, and
    // `rival` is heavily coupled to `owed_evil` by 30 shared contests.
    let even = || model(&[("Good", "Townsfolk", "Empath", 5), ("Evil", "Demon", "Imp", 9)]);
    let paired: &[(&str, &str)] = &[("owed_evil", "Evil"), ("rival", "Good")];
    let games: Vec<&[(&str, &str)]> = vec![paired; 30];
    let hist = hist_with(
        vec![
            ("owed_evil", model(&[("Good", "Townsfolk", "Empath", 9)])),
            ("stranger", even()),
            ("rival", even()),
        ],
        &games,
    );
    let pool = ["owed_evil", "stranger", "rival"];
    for seed in 0..32u64 {
        let pick = select(&seat_chars, &pool, &hist, seed);
        assert_eq!(pool[pick[2]], "owed_evil", "seed {seed}: never-Evil takes Demon");
        let good: Vec<&str> = [0usize, 1].iter().map(|&s| pool[pick[s]]).collect();
        assert!(
            good.iter().all(|m| *m == "stranger"),
            "seed {seed}: Good seats must target the unobserved match-up, got {good:?}"
        );
    }
}

/// A model on **both** sides of the table produces no edge for those seats, so it
/// must lose to any real alternative even when its counts are the most owed.
#[test]
fn select_will_not_put_the_evil_model_on_good_seats() {
    let seat_chars = vec![Character::Empath, Character::Chef, Character::Imp];
    // `hog` is owed on every axis, so pure counts would hand it all three seats.
    let hist = hist_with(
        vec![
            ("hog", model(&[("Good", "Townsfolk", "Empath", 0)])),
            (
                "other",
                model(&[("Good", "Townsfolk", "Empath", 50), ("Evil", "Demon", "Imp", 50)]),
            ),
        ],
        &[],
    );
    let pool = ["hog", "other"];
    for seed in 0..32u64 {
        let pick = select(&seat_chars, &pool, &hist, seed);
        let evil = pool[pick[2]];
        let good: Vec<&str> = [0usize, 1].iter().map(|&s| pool[pick[s]]).collect();
        assert!(
            good.iter().all(|m| *m != evil),
            "seed {seed}: {evil} on both sides yields no edge for those seats, got \
             good={good:?} evil={evil}"
        );
    }
}

/// The ≥2 floor still holds for a shape the match-up axis cannot reason about: a bag
/// with no Evil seat at all leaves the match-up cost at 0 for everyone.
#[test]
fn min_two_models_holds_even_with_no_evil_seat() {
    let seat_chars = vec![Character::Empath, Character::Chef];
    // Identical, maximally-lopsided records so counts alone would pick one twice.
    let hist = hist_with(
        vec![
            ("a", model(&[("Good", "Townsfolk", "Empath", 5)])),
            ("b", model(&[("Good", "Townsfolk", "Empath", 5)])),
        ],
        &[],
    );
    for seed in 0..32u64 {
        let pick = select(&seat_chars, &["a", "b"], &hist, seed);
        assert_eq!(used(&pick), 2, "seed {seed}: got {pick:?}");
    }
}

/// One eligible model is the one case the floor cannot satisfy — it must still
/// resolve rather than panic or loop.
#[test]
fn select_with_a_single_candidate_still_resolves() {
    let seat_chars = vec![Character::Empath, Character::Imp];
    let hist = hist_with(vec![("solo", model(&[("Good", "Townsfolk", "Empath", 1)]))], &[]);
    let pick = select(&seat_chars, &["solo"], &hist, 7);
    assert_eq!(pick, vec![0, 0]);
}

#[test]
fn read_history_builds_team_contrasts() {
    // One game: A and B are Good, C is Evil → z is each Good seat's share (½) and
    // −1 for the lone Evil seat. A second game seats the SAME model on both sides:
    // its shares cancel, so it yields no contrast at all.
    let seat = |m: &str, team: &str, ct: &str, role: &str| {
        format!(
            r#"{{"model":"{m}","team":"{team}","character_type":"{ct}","true_character":"{role}"}}"#
        )
    };
    let g1 = format!(
        r#"{{"event":"game_end","seats":[{},{},{}]}}"#,
        seat("A", "Good", "Townsfolk", "Empath"),
        seat("B", "Good", "Townsfolk", "Chef"),
        seat("C", "Evil", "Demon", "Imp"),
    );
    let g2 = format!(
        r#"{{"event":"game_end","seats":[{},{}]}}"#,
        seat("D", "Good", "Townsfolk", "Empath"),
        seat("D", "Evil", "Demon", "Imp"),
    );
    let hist = read_history(&[g1, g2].join("\n"));
    // Only the contested game contributes a contrast; the same-model game drops out.
    assert_eq!(hist.contests.len(), 1);
    let z = &hist.contests[0];
    let w = |name: &str| {
        z.shares.iter().find(|(m, _, _)| m == name).map(|(_, g, e)| {
            *g as f64 / z.good_total as f64 - *e as f64 / z.evil_total as f64
        })
    };
    assert!((w("A").unwrap() - 0.5).abs() < 1e-9, "A share ½");
    assert!((w("B").unwrap() - 0.5).abs() < 1e-9, "B share ½");
    assert!((w("C").unwrap() + 1.0).abs() < 1e-9, "C lone Evil seat = −1");
    // The per-model record still counts both of D's seats.
    assert_eq!(stats_of(&hist.models, "D").unwrap().games, 2);
}

#[test]
fn node_key_golden() {
    // Legacy grok (no backend) and explicit grok both stay bare → same node.
    assert_eq!(node_key("", "grok-build"), "grok-build");
    assert_eq!(node_key("grok", "grok-build"), "grok-build");
    // The other one is namespaced and never conflates with grok:same-name.
    assert_eq!(node_key("alt", "alt-opus-4-8"), "alt:alt-opus-4-8");
    assert_ne!(node_key("alt", "x"), node_key("grok", "x"));
    // Empty model → empty key (skipped by the caller).
    assert_eq!(node_key("alt", ""), "");
    assert_eq!(node_key("grok", ""), "");
}

#[test]
fn read_model_stats_folds_legacy_grok_and_splits_claude() {
    let lines = [
        // legacy grok row (no backend field) — Good
        r#"{"event":"game_end","seats":[{"model":"m","team":"Good","character_type":"Townsfolk","true_character":"Empath"}]}"#,
        // explicit grok row — Evil — must fold onto the SAME node as the legacy row
        r#"{"event":"game_end","seats":[{"model":"m","backend":"grok","team":"Evil","character_type":"Minion","true_character":"Poisoner"}]}"#,
        // native alt row with the SAME model name — a DISTINCT node
        r#"{"event":"game_end","seats":[{"model":"m","backend":"alt","team":"Good","character_type":"Townsfolk","true_character":"Chef"}]}"#,
        "not json",
    ];
    let stats = read_model_stats(&lines.join("\n"));
    let g = stats_of(&stats, "m").expect("bare grok node");
    assert_eq!(g.games, 2, "legacy + explicit grok fold to one node");
    assert_eq!(g.team_n("Good"), 1);
    assert_eq!(g.team_n("Evil"), 1);
    let c = stats_of(&stats, "alt:m").expect("alt node is separate");
    assert_eq!(c.games, 1);
    assert_eq!(c.team_n("Good"), 1);
}

// ---------------------------------------------------------------------------
// Results
// ---------------------------------------------------------------------------

fn five_seat_game() -> Game {
    let lobby = Game::create((0..5).map(|i| format!("P{i}")).collect(), 99).unwrap();
    let host = lobby.host_token.clone();
    let mut game = lobby.game;
    game.start_game(
        &host,
        StartOpts {
            assignments: Some(vec![
                RoleAssignment::normal(SeatId(0), Character::Empath),
                RoleAssignment::normal(SeatId(1), Character::Soldier),
                RoleAssignment::normal(SeatId(2), Character::Chef),
                RoleAssignment::normal(SeatId(3), Character::Poisoner),
                RoleAssignment::normal(SeatId(4), Character::Imp),
            ]),
            ..Default::default()
        },
    )
    .unwrap();
    game
}

fn agent(role: AgentRole, name: &str, model: &str) -> AgentConfig {
    AgentConfig {
        role,
        display_name: name.into(),
        token: "t".into(),
        game_id: 1,
        model: model.into(),
        backend: Backend::Grok,
    }
}

#[test]
fn seats_snapshot_includes_model_and_true_role() {
    let game = five_seat_game();
    let agents = vec![
        agent(AgentRole::Host, "Storyteller", "host-model"),
        agent(AgentRole::Player { seat: SeatId(0) }, "P0", "model-a"),
        agent(AgentRole::Player { seat: SeatId(4) }, "P4", "model-b"),
    ];
    let seats = seats_snapshot(&game, &agents);
    assert_eq!(seats.len(), 5);
    assert_eq!(seats[0].str_at("model"), Some("model-a"));
    assert_eq!(seats[0].str_at("true_character"), Some("Empath"));
    assert_eq!(seats[0].str_at("team"), Some("Good"));
    assert_eq!(seats[4].str_at("model"), Some("model-b"));
    assert_eq!(seats[4].str_at("team"), Some("Evil"));
    // Seats without a matching agent get empty model.
    assert_eq!(seats[1].str_at("model"), Some(""));
}

#[test]
fn death_records_tag_executed() {
    let game = five_seat_game();
    let agents = vec![agent(AgentRole::Player { seat: SeatId(4) }, "P4", "imp-model")];
    let recs = death_records_from_public(
        "run",
        1,
        &game,
        &agents,
        &PublicEvent::Executed { seat: SeatId(4) },
    );
    assert_eq!(recs.len(), 1);
    assert_eq!(recs[0].str_at("event"), Some("death"));
    assert_eq!(recs[0].str_at("cause"), Some("executed"));
    assert_eq!(recs[0].u64_at("seat"), Some(4));
    assert_eq!(recs[0].str_at("model"), Some("imp-model"));
}

#[test]
fn drain_dedupes_executed_player_died_pair() {
    let mut game = five_seat_game();
    let before = drain_public_events("run", 1, &game, &Vec::new(), 0).1;
    game.public_log.push(PublicEvent::Executed { seat: SeatId(2) });
    game.public_log.push(PublicEvent::PlayerDied { seat: SeatId(2) });
    game.public_log.push(PublicEvent::DiedInNight { seats: vec![SeatId(3)] });
    let agents = vec![
        agent(AgentRole::Player { seat: SeatId(2) }, "P2", "m2"),
        agent(AgentRole::Player { seat: SeatId(3) }, "P3", "m3"),
    ];
    let (_, end) = drain_public_events("run", 1, &game, &agents, 0);
    assert!(end >= 3);
    // The execution is one death, the night another.
    let (records, _) = drain_public_events("run", 1, &game, &agents, before);
    let causes: Vec<_> = records.iter().map(|r| r.str_at("cause").unwrap_or("")).collect();
    assert_eq!(causes, vec!["executed", "night"]);
    // With the new cursor nothing is left.
    assert!(drain_public_events("run", 1, &game, &agents, end).0.is_empty());
    // Direct shape checks for night death.
    let night = death_records_from_public(
        "run",
        1,
        &game,
        &agents,
        &PublicEvent::DiedInNight { seats: vec![SeatId(3)] },
    );
    assert_eq!(night[0].str_at("cause"), Some("night"));
    assert_eq!(night[0].str_at("model"), Some("m3"));
}

#[test]
fn json_line_roundtrip_shape() {
    let v = Json::Obj(vec![
        ("event".into(), Json::text("game_end")),
        ("run_id".into(), Json::text("r")),
        ("game_id".into(), Json::Uint(1)),
        ("winner".into(), Json::text("Good")),
        ("reason".into(), Json::text("DemonDead")),
        ("seats".into(), Json::Arr(Vec::new())),
    ]);
    let line = record_line(v, 5);
    assert!(!line.contains('\n'));
    let parsed: Value = serde_json::from_str(&line).unwrap();
    assert_eq!(parsed["event"], "game_end");
    assert_eq!(parsed["winner"], "Good");
    assert_eq!(parsed["v"], 1);
    assert_eq!(parsed["ts_unix_ms"], 5);
}

#[test]
fn closing_records_tell_the_outcome() {
    let mut game = five_seat_game();
    let agents = vec![agent(AgentRole::Host, "ST", "host-model")];
    let usage = vec![("Host".to_string(), AgentUsage::default())];
    assert!(log_game_end("r", 1, &game, &agents, &usage).is_none());
    let start = log_game_start("r", 1, &game, &agents, 99, "host_first");
    assert_eq!(start.u64_at("player_count"), Some(5));
    assert_eq!(start.get("host").unwrap().str_at("model"), Some("host-model"));
    game.phase = Phase::Ended {
        winner: botc_mcp::game::Winner::Evil,
        reason: botc_mcp::game::EndReason::EvilTwoAlive,
    };
    let end = log_game_end("r", 1, &game, &agents, &usage).unwrap();
    assert_eq!(end.str_at("reason"), Some("EvilTwoAlive"));
    let won: Vec<_> = end
        .array_at("seats")
        .unwrap()
        .iter()
        .map(|s| s.get("won").and_then(|w| w.as_bool()).unwrap())
        .collect();
    assert_eq!(won, vec![false, false, false, true, true]);
    let abort = log_game_abort("r", 1, None, &agents, "tui_quit", &usage);
    assert_eq!(abort.get("phase").unwrap().str_at("kind"), Some("unknown"));
    assert_eq!(run_id_or_unknown(""), "unknown");
    assert_eq!(run_id_or_unknown("r"), "r");
}

// ---------------------------------------------------------------------------
// The corpus, written and read back
// ---------------------------------------------------------------------------

fn finished_game() -> Game {
    let mut game = five_seat_game();
    game.phase = Phase::Ended {
        winner: botc_mcp::game::Winner::Good,
        reason: botc_mcp::game::EndReason::DemonDead,
    };
    game
}

fn table(models: [&str; 5]) -> Vec<AgentConfig> {
    (0..5u8)
        .map(|i| {
            agent(AgentRole::Player { seat: SeatId(i) }, &format!("P{i}"), models[i as usize])
        })
        .collect()
}

#[test]
fn finished_games_read_back() {
    let game = finished_game();
    // Seats 0–2 are Good (Empath, Soldier, Chef), 3 and 4 Evil (Poisoner, Imp).
    let agents = table(["a", "a", "b", "b", "c"]);
    let usage = Vec::new();
    let line = record_line(log_game_end("r", 1, &game, &agents, &usage).unwrap(), 5);
    let hist = read_history(&line);
    let a = stats_of(&hist.models, "a").unwrap();
    assert_eq!((a.games, a.team_n("Good"), a.team_n("Evil")), (2, 2, 0));
    assert_eq!((a.role_n("Empath"), a.role_n("Soldier"), a.role_n("Chef")), (1, 1, 0));
    let b = stats_of(&hist.models, "b").unwrap();
    assert_eq!((b.games, b.team_n("Good"), b.team_n("Evil")), (2, 1, 1));
    assert_eq!((b.type_n("Townsfolk"), b.type_n("Minion")), (1, 1));
    assert_eq!(stats_of(&hist.models, "c").unwrap().type_n("Demon"), 1);
    assert_eq!(hist.contests.len(), 1);
    assert_eq!((hist.contests[0].good_total, hist.contests[0].evil_total), (3, 2));
    let mut shares = hist.contests[0].shares.clone();
    shares.sort();
    assert_eq!(
        shares,
        vec![("a".to_string(), 2, 0), ("b".to_string(), 1, 1), ("c".to_string(), 0, 1)]
    );
}

#[test]
fn unfinished_games_and_self_play_add_no_contest() {
    let game = finished_game();
    let usage = Vec::new();
    let mixed = table(["a", "b", "a", "b", "a"]);
    let started = record_line(log_game_start("r", 1, &game, &mixed, 7, "host_first"), 1);
    let aborted = record_line(log_game_abort("r", 1, Some(&game), &mixed, "quit", &usage), 2);
    let hist = read_history(&[started, aborted].join("\n"));
    assert!(hist.models.is_empty());
    assert!(hist.contests.is_empty());
    let alone = table(["a"; 5]);
    let hist = read_history(&record_line(log_game_end("r", 1, &game, &alone, &usage).unwrap(), 3));
    assert_eq!(stats_of(&hist.models, "a").unwrap().games, 5);
    assert!(hist.contests.is_empty());
}
