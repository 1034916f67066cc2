//! The monitoring screen.

use botc_mcp::auth::Token;
use botc_mcp::game::{DayStage, Game, GameId, Phase, RoleAssignment, SeatId, StartOpts};
use botc_mcp::harness::action_log::ActionLog;
use botc_mcp::harness::agents::{AgentRole, AgentUsage, Backend, HarnessConfig, LineKind, LogLine};
use botc_mcp::harness::balance::{History, ModelStats};
use botc_mcp::harness::tui::board::board_snapshot;
use botc_mcp::harness::tui::board_pane::{board_panel, BoardAgent};
use botc_mcp::harness::tui::feed::{action_feed, FeedFilter};
use botc_mcp::harness::tui::launch::{
    actor_labels, agent_configs, launch_opts, launch_refusal, open_table, start_table, LaunchFacts,
};
use botc_mcp::harness::tui::monitor::{Focus, Key, KeyAction, Monitor, MouseAct};
use botc_mcp::harness::tui::paint::{
    actor_color, point_in_rect, role_label, role_style, text_of_row, Paint, Rect, Span, Tone,
};
use botc_mcp::harness::tui::setup::{SeatChoice, Setup};
use botc_mcp::harness::tui::setup_keys::eligible_models;
use botc_mcp::harness::tui::setup_pane::{setup_panel, SetupFacts};
use botc_mcp::harness::tui::tick::{
    closing_record, phase_label, status_spans, ClosingRecord, TickStep,
};
use botc_mcp::harness::tui::{stream_lines, stream_scroll_y, stream_wrapped_row_count};
use botc_mcp::json::Json;
use botc_mcp::rng::Substream;
use botc_mcp::roles::Character;
use botc_mcp::store::GameStore;
use ratatui::backend::TestBackend;
use ratatui::widgets::{Block, Borders, Paragraph, Wrap};
use ratatui::Terminal;

fn rng(seed: u64) -> Substream {
    Substream { seed, pos: 0 }
}

#[test]
fn point_in_rect_hit_test() {
    let r = Rect { x: 10, y: 5, width: 20, height: 8 };
    assert!(point_in_rect(r, 10, 5));
    assert!(point_in_rect(r, 29, 12));
    assert!(!point_in_rect(r, 9, 5));
    assert!(!point_in_rect(r, 30, 5));
    assert!(!point_in_rect(r, 10, 13));
}

#[test]
fn stream_scroll_defaults_to_tail() {
    // 50 rows, 10-row pane, scroll_from_bottom=0 → scroll so last 10 show.
    assert_eq!(stream_scroll_y(50, 10, 0), 40);
    assert_eq!(stream_scroll_y(5, 10, 0), 0); // fits entirely
    assert_eq!(stream_scroll_y(50, 10, 5), 35); // look 5 rows up from tail
    assert_eq!(stream_scroll_y(50, 10, 999), 0); // clamped to top
}

fn lk(kind: LineKind, text: &str) -> LogLine {
    LogLine { kind, text: text.into(), closed: true }
}

fn line_text(l: &Vec<Span>) -> String {
    text_of_row(l)
}

#[test]
fn stream_collapses_think_by_default() {
    let entries = vec![
        lk(LineKind::Thought, "I should poison someone"),
        lk(LineKind::Thought, "maybe seat 2"),
        lk(LineKind::Text, "Calling night_action on seat 2"),
        lk(LineKind::System, "— turn end —"),
    ];
    let texts: Vec<String> = stream_lines(&entries, false).iter().map(line_text).collect();
    assert_eq!(
        texts.iter().filter(|t| t.contains("thinking…")).count(),
        1,
        "consecutive thinks must merge to one summary: {texts:?}"
    );
    assert!(texts.iter().any(|t| t.contains("2 line")));
    assert!(
        !texts.iter().any(|t| t.contains("maybe seat 2")),
        "collapsed must not dump think bodies: {texts:?}"
    );
    assert!(texts.iter().any(|t| t.contains("Calling night_action on seat 2")));
    assert!(texts.iter().any(|t| t.contains("turn end")));

    let etexts: Vec<String> = stream_lines(&entries, true).iter().map(line_text).collect();
    assert!(etexts.iter().any(|t| t.contains("I should poison someone")));
    assert!(etexts.iter().any(|t| t.contains("maybe seat 2")));
    // No in-text tags — colour, not text markers.
    assert!(!etexts.iter().any(|t| t.contains("[think]")));
}

#[test]
fn stream_interleaves_think_and_action() {
    let entries = vec![
        lk(LineKind::Thought, "first"),
        lk(LineKind::Text, "action A"),
        lk(LineKind::Thought, "second"),
        lk(LineKind::Text, "action B"),
    ];
    let texts: Vec<String> = stream_lines(&entries, false).iter().map(line_text).collect();
    assert_eq!(texts.len(), 4, "got {texts:?}");
    assert!(texts[0].contains("thinking… 1 line"));
    assert_eq!(texts[1], "action A");
    assert!(texts[2].contains("thinking… 1 line"));
    assert_eq!(texts[3], "action B");
}

#[test]
fn errors_in_the_stream_are_red() {
    let rows = stream_lines(&[lk(LineKind::System, "Error: no"), lk(LineKind::System, "ok")], true);
    assert_eq!(rows[0][0].paint, Paint::ink(Tone::Red));
    assert_eq!(rows[1][0].paint, Paint::ink(Tone::Cyan));
}

fn marker_log() -> String {
    let mut lines: Vec<String> =
        (0..10).map(|i| format!("LINE{i}-ABCDEFGHIJKLMNOPQRSTUVWXYZ")).collect();
    lines.push("MARKER-LAST-LINE".into());
    lines.join("\n")
}

#[test]
fn wrapped_row_count_exceeds_logical_when_lines_wrap() {
    // 11 logical lines that each wrap to >1 row at width 10.
    let text = marker_log();
    let logical = text.lines().count();
    let wrapped = stream_wrapped_row_count(&text, 18); // inner_w of a w=20 bordered pane
    assert_eq!(logical, 11);
    assert!(
        wrapped > logical,
        "expected wrap to inflate row count: logical={logical} wrapped={wrapped}"
    );
    // Logical scroll under-shoots; wrap-aware is larger.
    assert!(
        stream_scroll_y(wrapped, 6, 0) > stream_scroll_y(logical, 6, 0),
        "wrap-aware tail scroll must be deeper than logical-only"
    );
    assert_eq!(stream_wrapped_row_count("", 18), 0);
    assert_eq!(stream_wrapped_row_count("x", 0), 0);
    assert_eq!(stream_wrapped_row_count("Hello World", 10), 2);
}

fn screen_with(log_text: &str, scroll_y: usize, title: &str) -> String {
    let backend = TestBackend::new(20, 8);
    let mut terminal = Terminal::new(backend).expect("terminal");
    terminal
        .draw(|f| {
            let area = f.area();
            let p = Paragraph::new(log_text)
                .block(Block::default().borders(Borders::ALL).title(title.to_string()))
                .wrap(Wrap { trim: false })
                .scroll((u16::try_from(scroll_y).unwrap_or(u16::MAX), 0));
            f.render_widget(p, area);
        })
        .expect("draw");
    let buf = terminal.backend().buffer();
    let mut screen = String::new();
    for y in 0..buf.area.height {
        for x in 0..buf.area.width {
            screen.push_str(buf[(x, y)].symbol());
        }
        screen.push('\n');
    }
    screen
}

/// With wrapping lines, live-tail scroll must keep MARKER on screen.
#[test]
fn wrap_aware_tail_anchor_shows_last_line_on_test_backend() {
    // Pane w=20 / h=8 → inner 18×6 (borders).
    let log_text = marker_log();
    let rows = stream_wrapped_row_count(&log_text, 18);
    let scroll_y = stream_scroll_y(rows, 6, 0);
    // Sanity: logical-only would under-scroll.
    let logical = log_text.lines().count();
    assert!(
        scroll_y > stream_scroll_y(logical, 6, 0),
        "wrap-aware scroll_y={scroll_y} should exceed logical"
    );
    let screen = screen_with(&log_text, scroll_y, "stream ·live");
    assert!(
        screen.contains("MARKER"),
        "last line MARKER must be visible with wrap-aware tail scroll; screen:\n{screen}"
    );
    // Control: logical-only scroll must leave MARKER off-screen.
    let screen2 = screen_with(&log_text, stream_scroll_y(logical, 6, 0), "bad");
    assert!(
        !screen2.contains("MARKER"),
        "logical-only scroll should still clip MARKER (proves wrap matters); screen:\n{screen2}"
    );
}

#[test]
fn previewed_assignment_replays_as_fixed_assignments() {
    // The parity contract between the preview and the launch: a role assignment
    // drawn off a throwaway game must replay verbatim as fixed `assignments`, so
    // the launched game shows exactly the roles the operator picked models for.
    let names: Vec<String> = (0..7).map(|i| format!("P{i}")).collect();
    let created = Game::create(names.clone(), 42).unwrap();
    let mut preview = created.game;
    preview.start_game(&created.host_token, StartOpts::default()).unwrap();
    let roles: Vec<RoleAssignment> = preview
        .seats
        .iter()
        .map(|s| RoleAssignment {
            seat: s.id,
            true_character: s.true_character.unwrap(),
            believed_character: s.believed_character,
        })
        .collect();

    // A legal Trouble Brewing bag: exactly one Imp, and a face iff Drunk.
    assert_eq!(roles.iter().filter(|a| a.true_character == Character::Imp).count(), 1);
    for a in &roles {
        assert_eq!(a.believed_character.is_some(), a.true_character == Character::Drunk);
    }

    // Different seed — proves the launched roles come from the fixed assignments,
    // not a fresh random bag.
    let launched = Game::create(names, 999).unwrap();
    let mut g = launched.game;
    g.start_game(
        &launched.host_token,
        StartOpts { assignments: Some(roles.clone()), ..Default::default() },
    )
    .unwrap();
    for (s, a) in g.seats.iter().zip(&roles) {
        assert_eq!(s.true_character, Some(a.true_character));
        assert_eq!(s.believed_character, a.believed_character);
    }
}

#[test]
fn role_label_and_style_surface_team_and_drunk_face() {
    let imp = RoleAssignment::normal(SeatId(0), Character::Imp);
    assert_eq!(role_label(&imp), "Imp");
    assert_eq!(role_style(Character::Imp).fg, Tone::Red);

    // Drunk shows both its true role and the Townsfolk it believes it is.
    let drunk = RoleAssignment::drunk(SeatId(1), Character::Chef).unwrap();
    assert_eq!(role_label(&drunk), "Drunk (as Chef)");
    // …but is coloured as the Outsider it truly is, not as its face.
    assert_eq!(role_style(drunk.true_character).fg, Tone::Yellow);

    assert_eq!(role_style(Character::Empath).fg, Tone::Green);
    assert_eq!(role_style(Character::Poisoner).fg, Tone::Red);
}

#[test]
fn agents_keep_their_colours() {
    assert_eq!(actor_color(true, None), Tone::Magenta);
    assert_eq!(actor_color(false, Some(0)), Tone::Cyan);
    assert_eq!(actor_color(false, Some(6)), Tone::Cyan);
    assert_eq!(actor_color(false, Some(5)), Tone::LightGreen);
}

// ---------------------------------------------------------------------------
// Setup
// ---------------------------------------------------------------------------

fn cfg() -> HarnessConfig {
    HarnessConfig {
        model: "m1".into(),
        available_models: vec!["m1".into(), "m2".into()],
        claude_models: vec!["c1".into()],
        ..Default::default()
    }
}

#[test]
fn setup_rows_and_picks_follow_the_keys() {
    let cfg = cfg();
    let mut s = Setup::new(&cfg);
    assert_eq!(s.seat_choices.len(), 6);
    s.row_up();
    assert_eq!(s.setup_row, 0);
    assert_eq!(s.change_count(20, &cfg), "players: 15  (16 sessions incl. host)");
    assert_eq!(s.seat_choices.len(), 16);
    assert_eq!(s.change_count(-100, &cfg), "players: 5  (6 sessions incl. host)");
    assert!(s.cycle_backend(&cfg).is_none());
    s.row_down();
    assert_eq!(s.change_model(1, &cfg), "Host: [grok] m2  (b = backend · a = apply to all)");
    s.row_down();
    assert_eq!(s.cycle_backend(&cfg).unwrap(), "P0 backend: [alt] c1");
    assert_eq!(s.seat_choices[1].backend, Backend::Claude);
    assert_eq!(s.apply_to_all().unwrap(), "ALL sessions: [alt] c1");
    assert!(s.seat_choices.iter().all(|c| c.backend == Backend::Claude && c.model == "c1"));
    for _ in 0..20 {
        s.row_down();
    }
    assert_eq!(s.setup_row, 6);
}

#[test]
fn previews_deal_a_whole_table() {
    let cfg = cfg();
    let mut s = Setup::new(&cfg);
    let mut r = rng(4);
    for n in 5..=15 {
        s.setup_row = 0;
        s.change_count(n - s.player_count as i32, &cfg);
        s.reroll_roles(&Vec::new(), 77 + n as u64, &mut r);
        assert_eq!(s.setup_roles.len(), n as usize);
        assert_eq!(
            s.setup_roles.iter().filter(|a| a.true_character == Character::Imp).count(),
            1
        );
        for (i, a) in s.setup_roles.iter().enumerate() {
            assert_eq!(a.seat, SeatId(i as u8));
        }
        assert!(s.has_preview());
    }
}

#[test]
fn shuffling_chooses_among_the_eligible() {
    let cfg = cfg();
    let mut s = Setup::new(&cfg);
    let hist = History {
        models: vec![("m2".into(), ModelStats::default()), ("alt:c1".into(), ModelStats::default())],
        contests: Vec::new(),
    };
    let pool = eligible_models(&cfg, &hist.models);
    assert_eq!(pool.len(), 2);
    assert_eq!(pool[0].model, "m2");
    assert_eq!(pool[1].backend, Backend::Claude);
    let sigma = vec![vec![1_000, 0], vec![0, 1_000]];
    let mut r = rng(8);
    assert_eq!(s.shuffle_models(&pool, &hist, &sigma, &mut r), "no role preview yet — press r first");
    s.reroll_roles(&hist.models, 5, &mut r);
    let none: Vec<SeatChoice> = Vec::new();
    assert!(s
        .shuffle_models(&none, &hist, &Vec::new(), &mut r)
        .starts_with("no available model has a completed game"));
    let status = s.shuffle_models(&pool, &hist, &sigma, &mut r);
    assert_eq!(status, "balancer picked 2/2 eligible models: c1 · m2");
    // The Host has no role and is left untouched.
    assert_eq!(s.seat_choices[0].model, "m1");
    assert!(s.seat_choices[1..].iter().all(|c| c.model != "m1"));
}

#[test]
fn setup_screen_lists_every_session() {
    let cfg = cfg();
    let mut s = Setup::new(&cfg);
    s.seat_choices[2].model = "odd".into();
    let facts = SetupFacts { mcp_path: "/bin/p".into(), mcp_ok: false };
    let rows: Vec<String> = setup_panel(&s, &cfg, &facts).iter().map(line_text).collect();
    assert_eq!(
        rows[0],
        "▶ Players: 5    →  6 headless agent sessions (host + players)"
    );
    assert!(rows[3].starts_with("  Host  Storyteller"), "{}", rows[3]);
    assert!(rows[3].ends_with("[grok] m1"));
    assert!(rows[5].ends_with("[grok] odd  (not in grok models)"), "{}", rows[5]);
    assert!(rows.iter().any(|r| r == "  grok models: m1 · m2"));
    assert!(rows.iter().any(|r| r == "  Agent MCP:   /bin/p  (MISSING — cargo build --bins)"));
    assert_eq!(rows.len(), 3 + 6 + 13);
}

fn facts(launched: bool, mcp_ok: bool, claude_ok: bool) -> LaunchFacts {
    LaunchFacts { launched, mcp_path: "/bin/p".into(), mcp_ok, claude_ok }
}

#[test]
fn launches_are_refused_with_a_reason() {
    let cfg = cfg();
    let mut s = Setup::new(&cfg);
    assert!(launch_refusal(&s, &cfg, &facts(false, true, false)).is_none());
    assert!(launch_refusal(&s, &cfg, &facts(true, true, true)).unwrap().contains("Already"));
    assert!(launch_refusal(&s, &cfg, &facts(false, false, true)).unwrap().contains("/bin/p"));
    s.seat_choices[3] = SeatChoice { backend: Backend::Claude, model: "nope".into() };
    assert!(launch_refusal(&s, &cfg, &facts(false, true, false))
        .unwrap()
        .starts_with("alt backend selected"));
    assert_eq!(
        launch_refusal(&s, &cfg, &facts(false, true, true)).unwrap(),
        "P2: alt model 'nope' not in the alt list — re-pick with ←/→."
    );
}

#[test]
fn launched_tables_show_what_was_previewed() {
    let cfg = cfg();
    let mut s = Setup::new(&cfg);
    s.reroll_roles(&Vec::new(), 5, &mut rng(1));
    s.seat_choices[1].model = "m2".into();
    let mut store = GameStore::new();
    let t = open_table(&mut store, &s, 42);
    assert_eq!(t.game_id, 1);
    assert_eq!(t.player_names, vec!["P0", "P1", "P2", "P3", "P4"]);
    start_table(&mut store, t.game_id, &t.host_token, launch_opts(&s, &cfg)).unwrap();
    let g = store.get(GameId(1)).unwrap();
    for (seat, a) in g.seats.iter().zip(&s.setup_roles) {
        assert_eq!(seat.true_character, Some(a.true_character));
    }
    assert_eq!(
        start_table(&mut store, 9, &t.host_token, StartOpts::default()).unwrap_err(),
        "start_game: unknown game"
    );
    assert!(start_table(&mut store, 1, &Token::from_shared("x"), StartOpts::default()).is_err());
    let labels = actor_labels(&t.host_token, &t.player_tokens);
    assert_eq!(labels.len(), 6);
    assert!(labels[0].1.is_host);
    assert_eq!(labels[3].1.name, "P2");
    let configs = agent_configs(&s, &cfg, &t);
    assert_eq!(configs.len(), 6);
    assert_eq!(configs[0].role, AgentRole::Host);
    assert_eq!(configs[1].model, "m2");
    assert_eq!(configs[5].role, AgentRole::Player { seat: SeatId(4) });
    assert_eq!(configs[2].token, t.player_tokens[1].as_str());
}

// ---------------------------------------------------------------------------
// Monitor
// ---------------------------------------------------------------------------

#[test]
fn keys_mean_different_things_on_the_two_screens() {
    let mut m = Monitor::new("boot".into());
    assert_eq!(m.on_key(Key::Char('j'), None, false), KeyAction::RowDown);
    assert_eq!(m.on_key(Key::Char('h'), None, false), KeyAction::Adjust { delta: -1 });
    assert_eq!(m.on_key(Key::Enter, None, false), KeyAction::Launch);
    assert_eq!(m.on_key(Key::Tab, None, false), KeyAction::Nothing);
    m.focus = Focus::Monitor;
    m.on_key(Key::BackTab, Some(3), false);
    assert_eq!(m.selected_agent, 2);
    m.on_key(Key::Tab, Some(3), false);
    assert_eq!(m.selected_agent, 0);
    m.on_key(Key::Char('h'), Some(3), false);
    assert!(m.selected_thinking_expanded());
    assert_eq!(m.status, "agent 0: thinking expanded (h / click stream)");
    m.on_key(Key::Char('h'), Some(3), false);
    assert!(!m.selected_thinking_expanded());
    assert_eq!(m.on_key(Key::Char(' '), Some(3), true), KeyAction::Nothing);
    assert!(m.status.starts_with("still running"));
    assert_eq!(m.on_key(Key::Char(' '), Some(3), false), KeyAction::Tick);
    m.on_key(Key::PageUp, Some(3), false);
    m.on_key(Key::Up, Some(3), false);
    assert_eq!(m.scroll_from_bottom, 6);
    m.on_key(Key::PageDown, Some(3), false);
    assert_eq!(m.scroll_from_bottom, 1);
    m.on_key(Key::PageDown, Some(3), false);
    assert_eq!(m.scroll_from_bottom, 0);
    m.on_key(Key::Char('f'), Some(3), false);
    assert_eq!(m.feed_filter, FeedFilter::GameOnly);
    m.on_key(Key::Char('t'), Some(3), false);
    assert_eq!(m.status, "auto_tick=true");
    assert!(!m.should_quit);
    m.on_key(Key::Esc, None, false);
    assert!(m.should_quit);
}

#[test]
fn the_mouse_selects_scrolls_and_expands() {
    let mut m = Monitor::new(String::new());
    m.focus = Focus::Monitor;
    m.hit_agents = Rect { x: 0, y: 3, width: 10, height: 10 };
    m.hit_feed = Rect { x: 10, y: 3, width: 10, height: 10 };
    m.hit_stream = Rect { x: 20, y: 3, width: 10, height: 10 };
    m.board_agent_rows = vec![Some(0), Some(0), Some(0), Some(1)];
    m.feed_rows = vec![None, Some(17)];
    m.on_mouse(MouseAct::LeftClick, 1, 7, true);
    assert_eq!(m.selected_agent, 1);
    m.on_mouse(MouseAct::LeftClick, 11, 5, true);
    assert_eq!(m.feed_expanded, vec![17]);
    m.on_mouse(MouseAct::LeftClick, 11, 5, true);
    assert!(m.feed_expanded.is_empty());
    m.on_mouse(MouseAct::LeftClick, 11, 4, true);
    assert!(m.feed_expanded.is_empty());
    m.on_mouse(MouseAct::WheelUp, 21, 5, true);
    assert_eq!(m.scroll_from_bottom, 3);
    m.on_mouse(MouseAct::WheelUp, 11, 5, true);
    assert_eq!(m.feed_scroll, 3);
    m.on_mouse(MouseAct::WheelDown, 11, 5, true);
    assert_eq!(m.feed_scroll, 0);
    m.on_mouse(MouseAct::LeftClick, 21, 5, true);
    assert_eq!(m.thinking_expanded, vec![1]);
    m.on_mouse(MouseAct::Other, 1, 4, true);
    assert_eq!(m.selected_agent, 1);
}

fn talking_game() -> Game {
    let created = Game::create((0..5).map(|i| format!("P{i}")).collect(), 1).unwrap();
    let mut g = created.game;
    g.phase = Phase::Day { day: 2, stage: DayStage::Discussion };
    g
}

#[test]
fn turns_are_planned_and_counted() {
    let g = talking_game();
    let mut m = Monitor::new(String::new());
    m.auto_tick = true;
    match m.plan_turn(&g) {
        TickStep::Run { plan, summary, hint } => {
            assert_eq!(plan.len(), 2);
            assert!(summary.starts_with("phase: Day"));
            assert_eq!(hint, "pending_night=false pending_host=None");
        }
        _ => panic!("no turn"),
    }
    assert_eq!(m.last_targets, vec!["Host", "P0"]);
    assert_eq!(m.stage_key, "day2-disc-5");
    m.note_ticked(2, Ok(2));
    assert_eq!(m.tick_rotation, 1);
    assert_eq!(m.status, "Turn tick → Host, P0: 2 of 2 spawned.");
    m.note_ticked(2, Ok(0));
    assert_eq!(m.tick_rotation, 1);
    assert!(!m.auto_tick);
    m.auto_tick = true;
    m.note_ticked(2, Err("no such file".into()));
    assert!(!m.auto_tick);
    assert_eq!(m.status, "tick error (auto stopped): no such file");
}

#[test]
fn a_stuck_storyteller_is_not_asked_forever() {
    let created = Game::create((0..5).map(|i| format!("P{i}")).collect(), 1).unwrap();
    let lobby = created.game;
    let mut m = Monitor::new(String::new());
    m.auto_tick = true;
    let mut runs = 0;
    loop {
        match m.plan_turn(&lobby) {
            TickStep::Run { .. } => runs += 1,
            TickStep::Braked => break,
            TickStep::Ended => panic!("ended"),
        }
        assert!(runs < 50);
    }
    assert_eq!(runs, 5);
    assert!(!m.auto_tick);
    assert!(m.status.contains("host repeated 'Host' 5x without progress"));
}

#[test]
fn games_that_end_stop_the_clock() {
    let mut g = talking_game();
    g.phase = Phase::Ended {
        winner: botc_mcp::game::Winner::Good,
        reason: botc_mcp::game::EndReason::DemonDead,
    };
    let mut m = Monitor::new(String::new());
    m.auto_tick = true;
    assert!(matches!(m.plan_turn(&g), TickStep::Ended));
    assert!(!m.auto_tick);
    assert_eq!(phase_label(&g), "Ended: Good");
    assert_eq!(closing_record(true, false, Some(&g)), ClosingRecord::End);
    assert_eq!(closing_record(true, true, Some(&g)), ClosingRecord::Nothing);
    assert_eq!(closing_record(true, false, Some(&talking_game())), ClosingRecord::Abort);
    assert_eq!(closing_record(true, false, None), ClosingRecord::Abort);
    assert_eq!(closing_record(false, false, None), ClosingRecord::Nothing);
}

#[test]
fn status_bars_tell_who_runs() {
    let mut m = Monitor::new(String::new());
    m.last_targets = vec!["P1".into(), "P2".into()];
    let idle = text_of_row(&status_spans(&m, "Day 2·disc", &Vec::new(), 7));
    assert_eq!(idle, " Day 2·disc · turn P1,P2 · manual (Space) · idle · last turn 7s ago");
    m.auto_tick = true;
    let busy = text_of_row(&status_spans(&m, "Night 1", &vec!["P1".into()], 0));
    assert_eq!(busy, " Night 1 · turn P1,P2 · auto (on turn end) · ▶ running: P1");
}

#[test]
fn boards_fuse_agents_and_grimoire() {
    let created = Game::create((0..5).map(|i| format!("P{i}")).collect(), 9).unwrap();
    let host = created.host_token.clone();
    let mut g = created.game;
    g.start_game(
        &host,
        StartOpts {
            assignments: Some(vec![
                RoleAssignment::drunk(SeatId(0), Character::Chef).unwrap(),
                RoleAssignment::normal(SeatId(1), Character::Soldier),
                RoleAssignment::normal(SeatId(2), Character::Monk),
                RoleAssignment::normal(SeatId(3), Character::Baron),
                RoleAssignment::normal(SeatId(4), Character::Imp),
            ]),
            ..Default::default()
        },
    )
    .unwrap();
    g.phase = Phase::Day { day: 1, stage: DayStage::Nominations };
    g.pending_host = None;
    g.pending_night = None;
    g.seats[1].alive = false;
    g.closed_nominations.push(botc_mcp::game::ClosedNomination {
        by: SeatId(0),
        target: SeatId(1),
        yes_votes: 2,
    });
    g.current_nomination = Some(botc_mcp::game::OpenNomination {
        by: SeatId(2),
        target: SeatId(3),
        votes: vec![(SeatId(2), true), (SeatId(4), false)],
        passes: vec![SeatId(1)],
    });
    let agent = |role| BoardAgent {
        role,
        model: "a-very-long-model-name".into(),
        running: false,
        usage: AgentUsage::default(),
    };
    let agents = vec![
        agent(AgentRole::Host),
        agent(AgentRole::Player { seat: SeatId(0) }),
        agent(AgentRole::Player { seat: SeatId(1) }),
    ];
    let snap = board_snapshot(&g);
    let pane = board_panel(Some(&snap), Some(&agents), 1);
    let rows: Vec<String> = pane.rows.iter().map(line_text).collect();
    assert_eq!(pane.title, "board · D1·noms · ●=run");
    assert_eq!(rows[0], "○   Host  Storyteller · a-very-long…");
    assert_eq!(rows[1], "    D1·noms · idle");
    assert_eq!(rows[2], "    —");
    assert_eq!(rows[3], "○ ▶ P0 Drunk (as Chef) · a-very-long…");
    assert_eq!(rows[4], "    alive · Good");
    assert_eq!(rows[7], "    DEAD · Good · ghost✓");
    assert_eq!(rows[10], "── noms ──");
    assert_eq!(rows[11], "  P0→P1  closed  2 yes  ≥½");
    assert_eq!(rows[12], "  P2→P3  OPEN  P2✓ P4✗ P1–");
    assert_eq!(pane.agent_rows[4], Some(1));
    assert_eq!(pane.agent_rows[11], None);
    let empty = board_panel(None, None, 0);
    let rows: Vec<String> = empty.rows.iter().map(line_text).collect();
    assert_eq!(rows, vec!["no agents", "", "── noms ──", "  (no game)"]);
}

#[test]
fn feeds_show_speech_in_full() {
    let mut log = ActionLog::default();
    let speech = "word ".repeat(30);
    log.record_rpc(
        3,
        None,
        "say",
        &Json::Obj(vec![("text".into(), Json::text(&speech))]),
        true,
        None,
        None,
    );
    log.record_rpc(4, None, "get_public_state", &Json::Obj(Vec::new()), true, None, None);
    log.record_rpc(5, None, "vote", &Json::Obj(Vec::new()), false, Some("denied".into()), None);
    let area = Rect { x: 0, y: 0, width: 40, height: 30 };
    let all = action_feed(&log, area, FeedFilter::All, 0, &Vec::new());
    let rows: Vec<String> = all.rows.iter().map(line_text).collect();
    assert_eq!(rows[0], "▸    3s ?    ▶ say  ✓");
    let told: String = rows[1..].iter().filter_map(|r| r.strip_prefix("      ")).collect();
    assert!(told.contains(speech.trim()), "{told}");
    assert!(rows.last().unwrap().ends_with("vote → no  ✗ denied"), "{rows:?}");
    assert_eq!(all.title, "actions · all · 3 total · click=expand f=filter ·live");
    let game = action_feed(&log, area, FeedFilter::GameOnly, 0, &Vec::new());
    assert!(!game.rows.iter().any(|r| line_text(r).contains("get_public_state")));
    let open = action_feed(&log, area, FeedFilter::GameOnly, 0, &vec![3]);
    assert!(open.rows.iter().any(|r| line_text(r).contains("error: denied")));
    assert_eq!(open.rows.len(), open.seqs.len());
    let small = Rect { x: 0, y: 0, width: 40, height: 4 };
    assert_eq!(action_feed(&log, small, FeedFilter::All, 0, &Vec::new()).rows.len(), 2);
    let none = action_feed(&ActionLog::new(5), area, FeedFilter::GameOnly, 0, &Vec::new());
    assert_eq!(line_text(&none.rows[0]), "no game actions yet (f = show all)");
}
