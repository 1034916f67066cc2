//! Agent sessions: feed, configuration, streams, usage.

use botc_mcp::harness::action_log::{
    classify, clip_chars, summarize, ActionKind, ActionLog, ActorLabel,
};
use botc_mcp::harness::agents::{
    agent_mcp_config, append_chunk, apply_stream_event, build_grok_tick_args, cycle_in_list,
    find_agent, format_token_count, parse_grok_models_output, parse_stream_line_usage,
    read_models, read_session_context, round_outcome, session_dir_name, settle_session,
    stream_line_establishes_session, workdir_name, AgentConfig, AgentRole, AgentUsage, Backend,
    ContextWindow, HarnessConfig, LineKind, LogLine, TickOutcome, TickUsage,
};
use botc_mcp::harness::debug_log::timestamp;
use botc_mcp::harness::scheduler::{HostTask, SchedTarget};
use botc_mcp::harness::stream::take_line;
use botc_mcp::game::SeatId;
use botc_mcp::json::Json;

fn obj(fields: Vec<(&str, Json)>) -> Json {
    Json::Obj(fields.into_iter().map(|(k, v)| (k.to_string(), v)).collect())
}

#[test]
fn classifies_game_vs_info() {
    assert_eq!(classify("vote"), ActionKind::Game);
    assert_eq!(classify("nominate"), ActionKind::Game);
    assert_eq!(classify("host_decide"), ActionKind::Game);
    assert_eq!(classify("get_public_state"), ActionKind::Info);
    assert_eq!(classify("list_characters"), ActionKind::Info);
    assert_eq!(classify("create_game"), ActionKind::Meta);
}

#[test]
fn summarizes_key_actions() {
    assert_eq!(
        summarize("vote", &obj(vec![("nominee", Json::Uint(1)), ("support", Json::Bool(true))])),
        "→P1 YES"
    );
    assert_eq!(
        summarize("vote", &obj(vec![("nominee", Json::Uint(2)), ("support", Json::Bool(false))])),
        "→P2 no"
    );
    assert_eq!(summarize("nominate", &obj(vec![("target", Json::Uint(3))])), "→P3");
    assert_eq!(summarize("pass_vote", &obj(vec![])), "abstain");
    assert_eq!(
        summarize("night_action", &obj(vec![("payload", obj(vec![("target", Json::Uint(4))]))])),
        "P4"
    );
    assert_eq!(summarize("say", &obj(vec![("text", Json::text("hi"))])), "“hi”");
    // Full text is stored (the monitor truncates only when the feed row is collapsed).
    let long = "x".repeat(80);
    let s = summarize("say", &obj(vec![("text", Json::text(&long))]));
    assert!(s.contains(&long), "summary must keep full say text: {s}");
    assert!(!s.contains('…'), "summary itself must not truncate: {s}");
    assert_eq!(summarize("get_public_state", &obj(vec![])), "");
}

#[test]
fn summaries_of_the_other_tools() {
    let directed = obj(vec![("text", Json::text("a\n b")), ("to", Json::Uint(2))]);
    assert_eq!(summarize("say", &directed), "→P2 “a b”");
    assert_eq!(summarize("st_announce", &directed), "“a b”");
    assert_eq!(summarize("day_action", &obj(vec![("target", Json::Uint(5))])), "slay →P5");
    assert_eq!(summarize("day_action", &obj(vec![])), "slay");
    assert_eq!(
        summarize("night_action", &obj(vec![("a", Json::Uint(1)), ("b", Json::Uint(2))])),
        "P1,P2"
    );
    assert_eq!(
        summarize(
            "night_action",
            &obj(vec![("targets", Json::Arr(vec![Json::Uint(0), Json::Null, Json::Uint(6)]))])
        ),
        "P0,P6"
    );
    assert_eq!(
        summarize(
            "host_decide",
            &obj(vec![("decision", Json::text("kill_other")), ("target", Json::Uint(3))])
        ),
        "kill_other →P3"
    );
    assert_eq!(summarize("host_decide", &obj(vec![("seat", Json::Uint(3))])), "→P3");
}

#[test]
fn records_and_labels() {
    let mut log = ActionLog::new(4);
    log.set_labels(vec![
        (
            "tok-host".to_string(),
            ActorLabel { name: "Host".into(), seat: None, is_host: true },
        ),
        ("tok-p1".to_string(), ActorLabel { name: "P1".into(), seat: Some(1), is_host: false }),
    ]);
    log.record_rpc(
        0,
        Some("tok-p1"),
        "vote",
        &obj(vec![
            ("nominee", Json::Uint(0)),
            ("support", Json::Bool(true)),
            ("token", Json::text("tok-p1")),
        ]),
        true,
        None,
        Some("{\"ok\":true}".into()),
    );
    log.record_rpc(1, Some("tok-host"), "close_vote", &obj(vec![]), true, None, None);
    let r = log.recent(10);
    assert_eq!(r.len(), 2);
    assert_eq!(r[0].actor.name, "P1");
    assert_eq!(r[0].tool, "vote");
    assert_eq!(r[0].kind, ActionKind::Game);
    // Expanded-view payloads: full args with the token REDACTED, plus result.
    assert!(r[0].args.contains("\"nominee\":0"), "{}", r[0].args);
    assert!(r[0].args.contains("<redacted>"), "{}", r[0].args);
    assert!(!r[0].args.contains("tok-p1"), "token leaked: {}", r[0].args);
    assert_eq!(r[0].result.as_deref(), Some("{\"ok\":true}"));
    assert_eq!(r[1].actor.name, "Host");
    // ring buffer cap
    for _ in 0..10 {
        log.record_rpc(2, Some("tok-p1"), "get_public_state", &obj(vec![]), true, None, None);
    }
    assert!(log.len() <= 4);
    assert_eq!(log.recent(1)[0].seq, 12);
    log.record_rpc(3, Some("who"), "x", &obj(vec![]), false, Some("no".into()), None);
    assert_eq!(log.recent(1)[0].actor.name, "?");
}

#[test]
fn clip_chars_is_utf8_safe() {
    // A multi-byte char straddling the cap must not panic.
    let s = "a".repeat(10) + "“quoted”✓";
    let c = clip_chars(&s, 12);
    assert!(c.chars().count() <= 12);
    assert!(c.ends_with('…'));
    assert_eq!(clip_chars("short", 10), "short");
}

#[test]
fn parse_tick_usage_from_end_event() {
    let line = r#"{"type":"end","stopReason":"EndTurn","usage":{"input_tokens":100,"cache_read_input_tokens":900,"output_tokens":50,"reasoning_tokens":10,"total_tokens":1050},"num_turns":3}"#;
    let u = parse_stream_line_usage(line).expect("usage");
    assert_eq!(u.input_tokens, 100);
    assert_eq!(u.cache_read_input_tokens, 900);
    assert_eq!(u.output_tokens, 50);
    assert_eq!(u.reasoning_tokens, 10);
    assert_eq!(u.total_tokens, 1050);
    assert_eq!(u.num_turns, Some(3));
    // Reconstruct total when omitted.
    let bare = r#"{"type":"end","usage":{"input_tokens":10,"cache_read_input_tokens":5,"output_tokens":2}}"#;
    let u2 = parse_stream_line_usage(bare).unwrap();
    assert_eq!(u2.total_tokens, 17);
    assert!(parse_stream_line_usage(r#"{"type":"text","data":"hi"}"#).is_none());
    // A fraction counts as far as it is whole.
    let odd = r#"{"type":"result","usage":{"input_tokens":10.9,"output_tokens":2}}"#;
    assert_eq!(parse_stream_line_usage(odd).unwrap().total_tokens, 12);
}

#[test]
fn agent_usage_accumulates_and_formats_board() {
    let mut u = AgentUsage::default();
    assert_eq!(u.board_short(), "—");
    u.record_tick(TickUsage {
        total_tokens: 12_000,
        input_tokens: 10_000,
        output_tokens: 2_000,
        ..Default::default()
    });
    u.record_tick(TickUsage { total_tokens: 3_500, ..Default::default() });
    assert_eq!(u.ticks_with_usage, 2);
    assert_eq!(u.game_total.total_tokens, 15_500);
    u.context = Some(ContextWindow { tokens_used: 35_586, window_tokens: 512_000, usage_pct: 6 });
    let s = u.board_short();
    assert!(s.contains('Σ'), "{s}");
    assert!(s.contains("ctx 6%"), "{s}");
    assert!(s.contains("last"), "{s}");
    assert_eq!(s, "Σ16k · last 3.5k · ctx 6% (36k/512k)");
}

#[test]
fn board_lines_are_compact() {
    let u = AgentUsage {
        game_total: TickUsage { total_tokens: 48_000, ..Default::default() },
        last_tick: Some(TickUsage { total_tokens: 12_000, ..Default::default() }),
        ticks_with_usage: 2,
        context: Some(ContextWindow {
            tokens_used: 36_000,
            window_tokens: 512_000,
            usage_pct: 7,
        }),
    };
    assert_eq!(u.board_short(), "Σ48k · last 12k · ctx 7% (36k/512k)");
    assert_eq!(AgentUsage::default().board_short(), "—");
}

#[test]
fn format_token_count_scales() {
    assert_eq!(format_token_count(940), "940");
    assert_eq!(format_token_count(1_500), "1.5k");
    assert_eq!(format_token_count(12_400), "12k");
}

#[test]
fn token_counts_round_like_printed_doubles() {
    for n in 1_000..10_000u64 {
        assert_eq!(format_token_count(n), format!("{:.1}k", n as f64 / 1_000.0));
    }
    let mut n = 1_000_000u64;
    while n < 40_000_000 {
        assert_eq!(format_token_count(n), format!("{:.1}M", n as f64 / 1_000_000.0));
        n += 9_973;
    }
    for k in 0..2_000u64 {
        let n = 1_050_000 + k * 100_000;
        assert_eq!(format_token_count(n), format!("{:.1}M", n as f64 / 1_000_000.0));
    }
    for n in [u64::MAX, u64::MAX - 1, 1 << 53, (1 << 53) + 1, (1 << 60) + 12_345] {
        assert_eq!(format_token_count(n), format!("{:.1}M", n as f64 / 1_000_000.0));
    }
}

#[test]
fn parse_grok_models_output_reads_list_and_default() {
    let sample = r#"
You are logged in with grok.com.

Default model: grok-code-fast-1

Available models:
  - v9-stickynote
  - grok-build
  - sxs-opus-4-6
  * grok-code-fast-1 (default)
  - opus-4-5-caching
"#;
    let (models, default) = parse_grok_models_output(sample);
    assert_eq!(
        models,
        vec![
            "v9-stickynote",
            "grok-build",
            "sxs-opus-4-6",
            "grok-code-fast-1",
            "opus-4-5-caching",
        ]
    );
    assert_eq!(default.as_deref(), Some("grok-code-fast-1"));
}

#[test]
fn a_marked_bullet_is_the_default_where_no_line_names_one() {
    let (models, default) =
        parse_grok_models_output("Available models:\n  - beta\n  * alpha (default)\n");
    assert_eq!(models, vec!["beta", "alpha"]);
    assert_eq!(default.as_deref(), Some("alpha"));
    // A line that names the default goes first, wherever it stands.
    let (_, default) = parse_grok_models_output("* a (default)\nDefault model: b\n* c (default)");
    assert_eq!(default.as_deref(), Some("b"));
    // Neither an unmarked star nor a marked dash says so.
    assert_eq!(parse_grok_models_output("* a\n- b (default)\nDefault model:\n").1, None);
}

#[test]
fn models_may_be_listed_on_the_other_stream() {
    let (models, default) = read_models("Default model: a\n", "  - b\n  - b\n  - c\n");
    assert_eq!(models, vec!["b", "c"]);
    assert_eq!(default.as_deref(), Some("a"));
    let (models, _) = read_models("", "nothing here");
    assert!(models.is_empty());
}

#[test]
fn cycle_model_wraps_and_recovers_from_custom() {
    let mut cfg = HarnessConfig {
        available_models: vec!["grok-build".into(), "v9-stickynote".into(), "other".into()],
        model: "grok-build".into(),
        ..Default::default()
    };
    cfg.cycle_model(1);
    assert_eq!(cfg.model, "v9-stickynote");
    cfg.cycle_model(-1);
    assert_eq!(cfg.model, "grok-build");
    // Wrap past ends.
    cfg.cycle_model(-1);
    assert_eq!(cfg.model, "other");
    cfg.cycle_model(1);
    assert_eq!(cfg.model, "grok-build");
    // Custom / unknown id lands on an edge of the list.
    cfg.model = "my-custom-model".into();
    cfg.cycle_model(1);
    assert_eq!(cfg.model, "grok-build");
    cfg.model = "my-custom-model".into();
    cfg.cycle_model(-1);
    assert_eq!(cfg.model, "other");
}

#[test]
fn load_models_applies_parsed_default() {
    let mut cfg = HarnessConfig::default();
    let (models, default) = parse_grok_models_output(
        "Default model: alpha\nAvailable models:\n  - beta\n  * alpha (default)\n",
    );
    cfg.available_models = models;
    if let Some(d) = default {
        cfg.model = d;
    }
    assert_eq!(cfg.model, "alpha");
    assert_eq!(cfg.available_models, vec!["beta", "alpha"]);
}

#[test]
fn loading_models_keeps_a_picker() {
    let mut cfg = HarnessConfig::default();
    let note = cfg.apply_models(Vec::new(), None);
    assert_eq!(note, "model list: could not read `grok models` — using grok-build");
    assert_eq!(cfg.available_models, vec!["grok-build"]);
    assert_eq!(cfg.model_index(), Some(0));
    let note = cfg.apply_models(vec!["x".into(), "y".into()], Some("y".into()));
    assert_eq!(note, "models: 2 from `grok models` · selected y");
    cfg.apply_models(vec!["x".into()], Some("gone".into()));
    assert_eq!(cfg.model, "x");
    cfg.apply_models(vec!["p".into(), "q".into()], None);
    assert_eq!(cfg.model, "p");
}

#[test]
fn grok_args_use_the_per_agent_model() {
    // Models are picked per seat: the argv must carry the CALLER's model,
    // not the config default.
    let cfg = HarnessConfig { model: "config-default-model".into(), ..Default::default() };
    for model in ["host-model-a", "seat-model-b"] {
        let args = build_grok_tick_args(
            &cfg,
            model,
            "/tmp/wd",
            "/tmp/wd/prompt.txt",
            "11111111-1111-1111-1111-111111111111",
            false,
        );
        let mi = args.iter().position(|a| a == "-m").expect("-m present");
        assert_eq!(args[mi + 1], model);
        assert!(!args.contains(&"config-default-model".to_string()));
    }
}

#[test]
fn cycle_in_list_steps_and_wraps() {
    let list: Vec<String> = vec!["a".into(), "b".into(), "c".into()];
    assert_eq!(cycle_in_list("a", &list, 1), "b");
    assert_eq!(cycle_in_list("c", &list, 1), "a");
    assert_eq!(cycle_in_list("a", &list, -1), "c");
    // Unknown current: forward → first, backward → last.
    assert_eq!(cycle_in_list("zzz", &list, 1), "a");
    assert_eq!(cycle_in_list("zzz", &list, -1), "c");
    // Empty list / zero delta are no-ops.
    assert_eq!(cycle_in_list("keep", &[], 1), "keep");
    assert_eq!(cycle_in_list("keep", &list, 0), "keep");
    // Far steps wrap as often as needed.
    assert_eq!(cycle_in_list("b", &list, 7), "c");
    assert_eq!(cycle_in_list("b", &list, -7), "a");
    assert_eq!(cycle_in_list("b", &list, i32::MIN), "c");
}

#[test]
fn grok_args_confine_agent_to_playing() {
    let cfg = HarnessConfig::default();
    let args = build_grok_tick_args(
        &cfg,
        "grok-build",
        "/tmp/wd",
        "/tmp/wd/prompt.txt",
        "11111111-1111-1111-1111-111111111111",
        false,
    );
    // Built-in file/shell tools removed (so it can't hunt for source / tokens)…
    let di = args
        .iter()
        .position(|a| a == "--disallowed-tools")
        .expect("--disallowed-tools present");
    let list = &args[di + 1];
    assert!(list.contains("run_terminal_command"));
    assert!(list.contains("read_file"));
    assert!(list.contains("list_dir"));
    // …but the MCP dispatch tools are NEVER removed (they ARE the game tools).
    assert!(!list.contains("search_tool"));
    assert!(!list.contains("use_tool"));
    // Global coding context dropped + filesystem sandboxed.
    assert!(args.contains(&"--no-memory".into()));
    let sb = args.iter().position(|a| a == "--sandbox").expect("--sandbox");
    assert_eq!(args[sb + 1], "workspace");
}

#[test]
fn grok_args_use_yolo_once_not_always_approve() {
    let cfg = HarnessConfig::default();
    let args = build_grok_tick_args(
        &cfg,
        "grok-build",
        "/tmp/wd",
        "/tmp/wd/prompt.txt",
        "11111111-1111-1111-1111-111111111111",
        false,
    );
    let yolo_count = args.iter().filter(|a| *a == "--yolo").count();
    let always = args.iter().filter(|a| *a == "--always-approve").count();
    assert_eq!(yolo_count, 1, "expected single --yolo: {args:?}");
    assert_eq!(always, 0, "must not pass --always-approve (alias): {args:?}");
    assert!(args.contains(&"--session-id".into()));
    assert!(!args.contains(&"--resume".into()));
}

#[test]
fn grok_args_resume_after_session_started() {
    let cfg = HarnessConfig::default();
    let args = build_grok_tick_args(
        &cfg,
        "grok-build",
        "/tmp/wd",
        "/tmp/wd/prompt.txt",
        "11111111-1111-1111-1111-111111111111",
        true,
    );
    assert!(args.contains(&"--resume".into()));
    assert!(!args.contains(&"--session-id".into()));
    assert_eq!(args.iter().filter(|a| *a == "--yolo").count(), 1);
    assert_eq!(args.iter().filter(|a| *a == "--always-approve").count(), 0);
}

#[test]
fn no_duplicate_flag_pairs() {
    let cfg = HarnessConfig::default();
    let args = build_grok_tick_args(
        &cfg,
        "grok-build",
        "/tmp/wd",
        "/tmp/p",
        "aaaaaaaa-bbbb-cccc-dddd-eeeeeeeeeeee",
        false,
    );
    for flag in [
        "--prompt-file",
        "-m",
        "--cwd",
        "--max-turns",
        "--output-format",
        "--yolo",
        "--no-subagents",
        "--disable-web-search",
        "--session-id",
    ] {
        let c = args.iter().filter(|a| a.as_str() == flag).count();
        assert!(c <= 1, "flag {flag} appears {c} times: {args:?}");
    }
}

#[test]
fn max_turns_stream_establishes_session() {
    // A run that used up its turns still means the session exists and is resumable.
    assert!(stream_line_establishes_session(r#"{"type":"max_turns_reached"}"#));
    assert!(stream_line_establishes_session(
        r#"{"type":"end","stopReason":"Cancelled","sessionId":"x"}"#
    ));
    assert!(!stream_line_establishes_session(r#"{"type":"error","message":"auth failed"}"#));
    assert!(!stream_line_establishes_session("not json"));
    // After establish, next tick must use --resume.
    let cfg = HarnessConfig::default();
    let args = build_grok_tick_args(
        &cfg,
        "grok-build",
        "/tmp/wd",
        "/tmp/wd/prompt.txt",
        "11111111-1111-1111-1111-111111111111",
        true, // session_started after max-turns establish
    );
    assert!(args.contains(&"--resume".into()));
    assert!(!args.contains(&"--session-id".into()));
}

#[test]
fn stream_events_append_live_and_coalesce_by_kind() {
    let mut g = Vec::<LogLine>::new();
    for line in [
        r#"{"type":"thought","data":"The"}"#,
        r#"{"type":"thought","data":" task"}"#,
        r#"{"type":"thought","data":" is"}"#,
        r#"{"type":"text","data":"Hello"}"#,
        r#"{"type":"text","data":" world"}"#,
        r#"{"type":"end","stopReason":"EndTurn","sessionId":"x"}"#,
    ] {
        apply_stream_event(&mut g, line);
    }
    // Consecutive same-kind chunks coalesce into one growing line; kinds are
    // kept (for colour) rather than tagged in-text.
    assert_eq!(g.len(), 3);
    assert_eq!(g[0].kind, LineKind::Thought);
    assert_eq!(g[0].text, "The task is");
    assert_eq!(g[1].kind, LineKind::Text);
    assert_eq!(g[1].text, "Hello world");
    assert_eq!(g[2].kind, LineKind::System);
    // No in-text tags.
    assert!(!g.iter().any(|l| l.text.contains("[think]")));
}

#[test]
fn append_chunk_breaks_on_newlines() {
    let mut log = Vec::new();
    append_chunk(&mut log, LineKind::Text, "line one\nline ");
    append_chunk(&mut log, LineKind::Text, "two");
    assert_eq!(log.len(), 2);
    assert_eq!(log[0].text, "line one");
    assert!(log[0].closed);
    assert_eq!(log[1].text, "line two"); // second chunk continued the open line
}

#[test]
fn streams_keep_the_latest_lines() {
    let mut log = Vec::new();
    let mut usage = AgentUsage::default();
    for i in 0..900 {
        take_line(&mut log, &mut usage, &format!("plain {i}"));
    }
    assert_eq!(log.len(), 800);
    assert_eq!(log[799].text, "plain 899");
    assert_eq!(log[0].text, "plain 100");
    let news = take_line(
        &mut log,
        &mut usage,
        r#"{"type":"end","usage":{"total_tokens":2500}}"#,
    );
    assert!(news.established);
    assert_eq!(usage.game_total.total_tokens, 2500);
    assert_eq!(log[799].text, "— turn end · 2.5k tok —");
    take_line(&mut log, &mut usage, r#"{"type":"error","message":"boom"}"#);
    assert_eq!(log[799].text, "error: boom");
    take_line(&mut log, &mut usage, r#"{"type":"tool_call","name":"say"}"#);
    assert_eq!(log[799].text, "· tool_call: say");
    take_line(&mut log, &mut usage, r#"{"type":"max_turns_reached"}"#);
    assert_eq!(log[799].text, "— max turns reached —");
}

#[test]
fn session_contexts_are_read_from_signals() {
    let c = read_session_context(
        r#"{"contextTokensUsed":35586,"contextWindowTokens":512000,"contextWindowUsage":6.9}"#,
    )
    .unwrap();
    assert_eq!(c, ContextWindow { tokens_used: 35_586, window_tokens: 512_000, usage_pct: 6 });
    assert_eq!(c.short(), "ctx 6% (36k/512k)");
    assert!(read_session_context("{}").is_none());
    assert!(read_session_context("oops").is_none());
}

#[test]
fn sessions_settle_by_their_stream() {
    let v = settle_session(true, false);
    assert!(v.started && !v.needs_fresh_id);
    let v = settle_session(false, true);
    assert!(v.started && !v.needs_fresh_id);
    let v = settle_session(false, false);
    assert!(!v.started && v.needs_fresh_id);
}

#[test]
fn rounds_report_what_was_started() {
    assert_eq!(
        round_outcome(&vec![TickOutcome::Failed, TickOutcome::Spawned, TickOutcome::Failed]),
        Ok(1)
    );
    assert_eq!(
        round_outcome(&vec![TickOutcome::Failed, TickOutcome::SkippedStillRunning]),
        Err(0)
    );
    assert_eq!(round_outcome(&vec![TickOutcome::SkippedStillRunning]), Ok(0));
    assert_eq!(round_outcome(&Vec::new()), Ok(0));
}

#[test]
fn agents_are_found_by_their_role() {
    let agent = |role| AgentConfig {
        role,
        display_name: "x".into(),
        token: "t".into(),
        game_id: 1,
        model: "m".into(),
        backend: Backend::Grok,
    };
    let all = vec![
        agent(AgentRole::Player { seat: SeatId(1) }),
        agent(AgentRole::Host),
        agent(AgentRole::Player { seat: SeatId(2) }),
    ];
    assert_eq!(find_agent(&all, &SchedTarget::Host(HostTask::CloseVoting)), Some(1));
    let p2 = SchedTarget::Player {
        seat: SeatId(2),
        task: botc_mcp::harness::scheduler::PlayerTask::Nominate,
    };
    assert_eq!(find_agent(&all, &p2), Some(2));
    let p9 = SchedTarget::Player {
        seat: SeatId(9),
        task: botc_mcp::harness::scheduler::PlayerTask::Nominate,
    };
    assert_eq!(find_agent(&all, &p9), None);
    assert_eq!(workdir_name(&AgentRole::Host), "host");
    assert_eq!(workdir_name(&AgentRole::Player { seat: SeatId(4) }), "seat4");
}

#[test]
fn agent_configs_name_their_proxy() {
    let s = agent_mcp_config("/bin/p", "/tmp/s", "/tmp/t", 7, AgentRole::Host);
    assert!(s.contains("command = \"/bin/p\"\n"));
    assert!(s.contains(
        r#"args = ["--socket", "/tmp/s", "--token-file", "/tmp/t", "--game-id", "7", "--role", "host"]"#
    ));
    assert!(s.contains("await_turn = 3600\n"));
    assert_eq!(session_dir_name("/tmp/wd"), "%2Ftmp%2Fwd");
}

#[test]
fn stamps_have_fixed_columns() {
    assert_eq!(timestamp(3_661, 7, 42), "[01:01:01.007 +    42ms]");
    assert_eq!(timestamp(86_399, 999, 1_234_567), "[23:59:59.999 +1234567ms]");
}

#[test]
fn chunks_coalesce_across_newlines_and_at_the_cap() {
    let full: Vec<LogLine> = (0..800)
        .map(|i| LogLine { kind: LineKind::Text, text: format!("{i}"), closed: i < 799 })
        .collect();
    for (a, b) in [("", "x\n"), ("x\n", ""), ("one\ntw", "o\n\nthree"), ("\n", "\n"), ("a", "b")] {
        for start in [Vec::new(), full.clone()] {
            let mut twice = start.clone();
            append_chunk(&mut twice, LineKind::Text, a);
            append_chunk(&mut twice, LineKind::Text, b);
            let mut once = start.clone();
            append_chunk(&mut once, LineKind::Text, &format!("{a}{b}"));
            assert!(once.len() <= 800);
            assert_eq!(once.len(), twice.len());
            for (x, y) in once.iter().zip(&twice) {
                assert_eq!((&x.text, x.closed), (&y.text, y.closed));
            }
        }
    }
    let mut log = full.clone();
    append_chunk(&mut log, LineKind::Text, "!\nnew");
    assert_eq!(log[0].text, "1");
    assert_eq!(log[798].text, "799!");
    assert_eq!(log[799].text, "new");
}

#[test]
fn runs_differ_in_their_session_alone() {
    let cfg = HarnessConfig::default();
    let fresh = build_grok_tick_args(&cfg, "seat-model", "/w", "/p", "sid", false);
    let resumed = build_grok_tick_args(&cfg, "seat-model", "/w", "/p", "sid", true);
    let n = fresh.len();
    assert_eq!(fresh[..n - 2], resumed[..n - 2]);
    assert_eq!(fresh[n - 2..], ["--session-id", "sid"]);
    assert_eq!(resumed[n - 2..], ["--resume", "sid"]);
    for args in [&fresh, &resumed] {
        assert_eq!(args.iter().filter(|a| *a == "--yolo").count(), 1);
        assert!(!args.iter().any(|a| a == "--always-approve"));
        assert_eq!(args.iter().filter(|a| *a == "-m").count(), 1);
        assert_eq!(args[3], "seat-model");
    }
}
