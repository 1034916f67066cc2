//! The wake mailbox, the shared engine and the agent proxy.

use botc_mcp::game::{DayStage, Game, GameId, Phase, SeatId, StartOpts};
use botc_mcp::harness::action_log::{ActionLog, ActorLabel};
use botc_mcp::harness::agent_proxy::{forwarded, handle_line, inject_auth, ProxyStep};
use botc_mcp::harness::proxy_acl::{tool_allowed, ACL_DENY_JSONRPC_CODE};
use botc_mcp::harness::scheduler::{
    plan_ticks, wait_signature, HostTask, PlayerTask, SchedTarget, STALL_ESCALATE,
};
use botc_mcp::harness::socket::{
    bad_request, dispatch, finish_await, read_response, read_timeout_secs, tool_request, Dispatch,
    RpcRequest, RpcResponse,
};
use botc_mcp::harness::wake::{
    stage_key_of, tool_completes_wake, PollStep, WakeActor, WakeCoordinator,
};
use botc_mcp::json::Json;
use botc_mcp::mcp_server;
use botc_mcp::store::GameStore;
use serde_json::Value;

fn five_names() -> Vec<String> {
    (0..5).map(|i| format!("P{i}")).collect()
}

fn started_store() -> (GameStore, u64) {
    let mut games = GameStore::new();
    let created = Game::create(five_names(), 42).unwrap();
    let host = created.host_token.clone();
    let mut game = created.game;
    game.start_game(&host, StartOpts::default()).unwrap();
    let id = games.insert(game);
    (games, id.0)
}

/// A long-poll without a clock: time moves on by what each step asks to wait.
fn await_turn(
    coord: &mut WakeCoordinator,
    store: &GameStore,
    actor: WakeActor,
    name: &str,
    budget_ms: u64,
) -> Json {
    let mut now = 1_000;
    let deadline = now + budget_ms;
    coord.begin_wait(actor, now);
    loop {
        match coord.poll(store, actor, name, now, deadline) {
            PollStep::Done(v) => {
                coord.end_wait(actor);
                return v;
            }
            PollStep::Wait { millis } => {
                assert!(coord.is_waiting(actor));
                now += millis;
            }
        }
    }
}

fn text<'a>(v: &'a Json, key: &str) -> &'a str {
    v.str_at(key).unwrap_or("")
}

#[test]
fn await_returns_idle_or_wake_quickly() {
    let (store, gid) = started_store();
    let mut coord = WakeCoordinator::new();
    coord.set_game_id(gid);
    let v = await_turn(&mut coord, &store, WakeActor::Player(SeatId(4)), "P4", 80);
    let status = text(&v, "status");
    assert!(status == "idle" || status == "wake", "unexpected status {status}: {v:?}");
    if status == "idle" {
        assert_eq!(v.get("retry").and_then(|r| r.as_bool()), Some(true));
    }
}

fn first_planned_actor(store: &GameStore, gid: u64, coord: &WakeCoordinator) -> WakeActor {
    let g = store.get(GameId(gid)).unwrap();
    let plan = plan_ticks(g, coord.rotation(), coord.stall());
    match &plan[0] {
        SchedTarget::Host(_) => WakeActor::Host,
        SchedTarget::Player { seat, .. } => WakeActor::Player(*seat),
    }
}

#[test]
fn redelivery_after_wake_without_action() {
    let (store, gid) = started_store();
    let mut coord = WakeCoordinator::new();
    coord.set_game_id(gid);
    let actor = first_planned_actor(&store, gid, &coord);
    let name = actor.label();
    let v1 = await_turn(&mut coord, &store, actor, &name, 2_000);
    assert_eq!(text(&v1, "status"), "wake", "{v1:?}");
    let id1 = text(&v1, "wake_id").to_string();
    let v2 = await_turn(&mut coord, &store, actor, &name, 2_000);
    assert_eq!(text(&v2, "status"), "wake", "{v2:?}");
    assert_eq!(text(&v2, "wake_id"), id1, "same wake redelivered");
}

#[test]
fn note_tool_clears_outstanding() {
    let (store, gid) = started_store();
    let mut coord = WakeCoordinator::new();
    coord.set_game_id(gid);
    let actor = first_planned_actor(&store, gid, &coord);
    let name = actor.label();
    let v1 = await_turn(&mut coord, &store, actor, &name, 2_000);
    assert_eq!(text(&v1, "status"), "wake", "{v1:?}");
    let kind = text(&v1, "kind").to_string();
    let tool = match kind.as_str() {
        "night_action" => "night_action",
        "discuss" | "nominate" => "say",
        "vote" => "vote",
        k if k.starts_with("host_") => "skip_night_action",
        other => panic!("unexpected kind {other}"),
    };
    // Host end-day / close-vote need different tools, and a table without first-night wakes is
    // already in discussion.
    let tool = match kind.as_str() {
        "host_pace_discussion" => "open_nominations",
        "host_close_vote" => "close_vote",
        "host_end_day" => "end_nominations",
        "host_start_game" => "start_game",
        _ => tool,
    };
    coord.note_tool_success(actor, tool);
    assert!(
        !coord.outstanding.iter().any(|(a, _)| *a == actor),
        "kind={kind} tool={tool} still outstanding"
    );
}

#[test]
fn tool_completes_wake_matrix() {
    let night = SchedTarget::Player {
        seat: SeatId(0),
        task: PlayerTask::NightWake { prompt: "x".into() },
    };
    assert!(tool_completes_wake("night_action", &night));
    assert!(!tool_completes_wake("say", &night));
    let disc = SchedTarget::Player {
        seat: SeatId(0),
        task: PlayerTask::Discuss { round: 0, last_round: false, directed_reply: false },
    };
    assert!(tool_completes_wake("say", &disc));
    assert!(tool_completes_wake("nominate", &disc));
}

#[test]
fn host_gets_wake_when_planned() {
    let (store, gid) = started_store();
    let mut coord = WakeCoordinator::new();
    coord.set_game_id(gid);
    // host_first start usually has pending_host; if not, force stall skip path.
    coord.stall = STALL_ESCALATE;
    coord.wait_sig = wait_signature(store.get(GameId(gid)).unwrap());
    coord.last_stall_bump = Some(1_000);
    let v = await_turn(&mut coord, &store, WakeActor::Host, "Host", 2_000);
    // Host is planned on pending_host, advance-night, or stall skip — not always,
    // but with STALL_ESCALATE and a night wait it should be.
    let status = text(&v, "status");
    if status == "wake" {
        assert!(text(&v, "kind").starts_with("host_"), "{v:?}");
    } else {
        // No host work in this seed/state — acceptable; still a valid soft idle.
        assert_eq!(status, "idle", "{v:?}");
    }
}

fn to_discussion(g: &mut Game) {
    g.phase = Phase::Day { day: 1, stage: DayStage::Discussion };
    g.pending_night = None;
    g.pending_host = None;
    for s in &mut g.seats {
        s.alive = true;
    }
}

#[test]
fn stage_key_includes_living_count_on_day() {
    let (mut store, gid) = started_store();
    // Force Day Discussion with known living roster.
    let g = store.get_mut(GameId(gid)).unwrap();
    to_discussion(g);
    let k5 = stage_key_of(g);
    assert!(
        k5.ends_with("-5") || k5.contains("-5"),
        "living=5 should appear in stage key: {k5}"
    );
    g.seats[2].alive = false;
    let k4 = stage_key_of(g);
    assert_ne!(k5, k4, "death must change stage key so rotation resets");
    assert!(k4.contains("-4"), "living=4 should appear in stage key: {k4}");
}

#[test]
fn mid_discussion_death_resets_rotation() {
    let (mut store, gid) = started_store();
    let mut coord = WakeCoordinator::new();
    coord.set_game_id(gid);
    to_discussion(store.get_mut(GameId(gid)).unwrap());
    // Deliver a discuss wake so stage_key is stamped with living=5.
    let v = await_turn(&mut coord, &store, WakeActor::Player(SeatId(0)), "P0", 1_000);
    assert_eq!(text(&v, "status"), "wake", "{v:?}");
    assert_eq!(text(&v, "kind"), "discuss");
    // Simulate several speakers having already gone (high rotation).
    coord.rotation = 7;
    // Mid-day death shrinks living 5→4; next deliver must reset rotation.
    store.get_mut(GameId(gid)).unwrap().seats[1].alive = false;
    let _ = await_turn(&mut coord, &store, WakeActor::Player(SeatId(0)), "P0", 1_000);
    assert_eq!(
        coord.rotation(),
        0,
        "rotation must reset when living count changes mid-discussion"
    );
}

#[test]
fn stopping_answers_every_waiter() {
    let (store, gid) = started_store();
    let mut coord = WakeCoordinator::new();
    coord.set_game_id(gid);
    coord.stop();
    let v = await_turn(&mut coord, &store, WakeActor::Host, "Host", 60_000);
    assert_eq!(text(&v, "status"), "stopped");
}

#[test]
fn completed_turns_pass_the_word_on() {
    let (mut store, gid) = started_store();
    let mut coord = WakeCoordinator::new();
    coord.set_game_id(gid);
    to_discussion(store.get_mut(GameId(gid)).unwrap());
    let speaker = WakeActor::Player(SeatId(0));
    let v = await_turn(&mut coord, &store, speaker, "P0", 1_000);
    assert_eq!(text(&v, "kind"), "discuss", "{v:?}");
    // A tool that does not fit leaves the wake owed.
    coord.note_tool_success(speaker, "get_public_state");
    assert_eq!(coord.rotation(), 0);
    assert_eq!(coord.outstanding.len(), 1);
    coord.note_tool_success(speaker, "say");
    assert_eq!(coord.rotation(), 1);
    let v = await_turn(&mut coord, &store, speaker, "P0", 1_000);
    assert_eq!(text(&v, "status"), "idle", "{v:?}");
}

#[test]
fn waiting_actors_are_listed() {
    let mut coord = WakeCoordinator::new();
    coord.begin_wait(WakeActor::Host, 5);
    coord.begin_wait(WakeActor::Player(SeatId(2)), 6);
    assert_eq!(coord.waiting_labels(), vec!["Host", "P2"]);
    assert!(coord.all_waiting(&vec![WakeActor::Host, WakeActor::Player(SeatId(2))]));
    assert!(!coord.all_waiting(&vec![WakeActor::Player(SeatId(3))]));
    assert!(!coord.all_waiting(&Vec::new()));
    coord.end_wait(WakeActor::Host);
    assert!(!coord.is_waiting(WakeActor::Host));
}

#[test]
fn wake_ids_quote_the_prompt() {
    let mut games = GameStore::new();
    let created = Game::create(five_names(), 42).unwrap();
    let mut game = created.game;
    game.phase = Phase::FirstNight { cursor: 0 };
    game.pending_night = Some(botc_mcp::game::PendingWake {
        step: botc_mcp::game::NightStep::Poisoner { seat: SeatId(3) },
        seat: SeatId(3),
        schema: botc_mcp::game::ChoiceSchema::PickOne {
            any_seat: false,
            living_only: true,
            exclude_self: true,
        },
        prompt: "Say \"now\"".into(),
    });
    let id = games.insert(game);
    let mut coord = WakeCoordinator::new();
    coord.set_game_id(id.0);
    let v = await_turn(&mut coord, &games, WakeActor::Player(SeatId(3)), "P3", 10);
    assert_eq!(text(&v, "wake_id"), r#"w-1-p3:NightWake { prompt: "Say \"now\"" }"#);
    assert_eq!(text(&v, "kind"), "night_action");
}

// ---------------------------------------------------------------------------
// Access
// ---------------------------------------------------------------------------

#[test]
fn player_denied_host_tools() {
    assert!(!tool_allowed("get_host_state", false));
    assert!(!tool_allowed("host_decide", false));
    assert!(!tool_allowed("create_game", false));
    assert!(tool_allowed("say", false));
    assert!(tool_allowed("get_private_state", false));
    assert!(tool_allowed("nominate", false));
}

#[test]
fn host_allowed_host_tools_but_not_create() {
    assert!(tool_allowed("get_host_state", true));
    assert!(tool_allowed("host_decide", true));
    assert!(!tool_allowed("create_game", true));
    assert!(tool_allowed("say", true));
    assert!(tool_allowed("skip_night_action", true));
}

#[test]
fn acl_deny_code_is_invalid_params_not_method_not_found() {
    assert_eq!(ACL_DENY_JSONRPC_CODE, -32602);
    assert_ne!(ACL_DENY_JSONRPC_CODE, -32601);
}

#[test]
fn unknown_bare_names_are_not_known_tools() {
    assert!(!mcp_server::is_known_tool("foobar"));
    assert!(!mcp_server::is_known_tool("nominatee"));
    assert!(!mcp_server::is_known_tool("resources/list"));
    assert!(mcp_server::is_known_tool("nominate"));
    assert!(mcp_server::is_known_tool("say"));
}

fn answer_of(step: ProxyStep) -> Value {
    match step {
        ProxyStep::Answer(s) => serde_json::from_str(&s).unwrap(),
        ProxyStep::Silent => panic!("silent"),
        ProxyStep::Forward { name, .. } => panic!("forwarded {name}"),
    }
}

#[test]
fn proxy_answers_the_protocol_itself() {
    let v = answer_of(handle_line("tok", None, false, "{oops"));
    assert_eq!(v["error"]["code"], -32700);
    let v = answer_of(handle_line(
        "tok",
        None,
        false,
        r#"{"id":1,"method":"initialize","params":{"protocolVersion":"2025-11-25"}}"#,
    ));
    assert_eq!(v["result"]["protocolVersion"], "2025-11-25");
    let v = answer_of(handle_line("tok", None, false, r#"{"id":2,"method":"initialize"}"#));
    assert_eq!(v["result"]["protocolVersion"], "2024-11-05");
    assert!(matches!(
        handle_line("tok", None, false, r#"{"method":"notifications/initialized"}"#),
        ProxyStep::Silent
    ));
    let v = answer_of(handle_line("tok", None, false, r#"{"id":3,"method":"tools/list"}"#));
    let tools = v["result"]["tools"].as_array().unwrap();
    assert!(tools.iter().all(|t| t["name"] != "host_decide"));
    assert!(tools.iter().any(|t| t["name"] == "say"));
    let v = answer_of(handle_line("tok", None, false, r#"{"id":4,"method":"resources/list"}"#));
    assert_eq!(v["error"]["code"], -32601);
}

#[test]
fn proxy_denies_what_the_role_may_not_call() {
    let v = answer_of(handle_line(
        "tok",
        None,
        false,
        r#"{"id":1,"method":"tools/call","params":{"name":"host_decide"}}"#,
    ));
    assert_eq!(v["error"]["code"], -32602);
    assert_eq!(
        v["error"]["message"],
        "tool not available for this agent role: host_decide"
    );
    let v = answer_of(handle_line("tok", None, true, r#"{"id":2,"method":"create_game"}"#));
    assert_eq!(v["error"]["code"], -32602);
    let v = answer_of(handle_line("tok", None, true, r#"{"id":2,"method":"tools/call"}"#));
    assert_eq!(v["error"]["message"], "tools/call requires name");
}

#[test]
fn proxy_puts_its_own_credentials_in() {
    let step = handle_line(
        "mine",
        Some(7),
        false,
        r#"{"id":1,"method":"tools/call","params":{"name":"say","arguments":{"text":"hi","token":"stolen","host_token":"stolen","game_id":1}}}"#,
    );
    match step {
        ProxyStep::Forward { name, arguments, .. } => {
            assert_eq!(name, "say");
            assert_eq!(arguments.str_at("token"), Some("mine"));
            assert_eq!(arguments.str_at("player_token"), Some("mine"));
            assert!(arguments.get("host_token").is_none());
            assert_eq!(arguments.u64_at("game_id"), Some(7));
            assert_eq!(arguments.str_at("text"), Some("hi"));
        }
        _ => panic!("not forwarded"),
    }
    let host = inject_auth(&Json::Null, "h", None, true);
    assert_eq!(host.str_at("host_token"), Some("h"));
    assert!(host.get("player_token").is_none());
}

#[test]
fn proxy_passes_engine_errors_on() {
    let line = forwarded(Json::Uint(3), Err("unauthorized".into()));
    let v: Value = serde_json::from_str(&line).unwrap();
    assert_eq!(v["error"]["code"], -32000);
    assert_eq!(v["error"]["message"], "unauthorized");
    assert_eq!(v["id"], 3);
}

// ---------------------------------------------------------------------------
// Dispatch
// ---------------------------------------------------------------------------

fn reply_of(d: Dispatch) -> RpcResponse {
    match d {
        Dispatch::Reply(r) => r,
        Dispatch::Await(_) => panic!("waits"),
    }
}

fn args(fields: Vec<(&str, Json)>) -> Json {
    Json::Obj(fields.into_iter().map(|(k, v)| (k.to_string(), v)).collect())
}

#[test]
fn requests_are_dispatched_and_recorded() {
    let mut store = GameStore::new();
    let created = Game::create(five_names(), 3).unwrap();
    let host = created.host_token.as_str().to_string();
    let id = store.insert(created.game);
    let mut wake = WakeCoordinator::new();
    let mut log = ActionLog::default();
    log.set_labels(vec![(
        host.clone(),
        ActorLabel { name: "Host".into(), seat: None, is_host: true },
    )]);
    let pong = reply_of(dispatch(
        &mut store,
        &mut wake,
        &mut log,
        0,
        &RpcRequest { id: 1, op: "ping".into(), name: None, arguments: Json::Null },
        None,
    ));
    assert!(pong.ok);
    let nameless = reply_of(dispatch(
        &mut store,
        &mut wake,
        &mut log,
        0,
        &RpcRequest { id: 2, op: "tool".into(), name: None, arguments: Json::Null },
        None,
    ));
    assert_eq!(nameless.error.as_deref(), Some("tool requires name"));
    let odd = reply_of(dispatch(
        &mut store,
        &mut wake,
        &mut log,
        0,
        &RpcRequest { id: 3, op: "dance".into(), name: None, arguments: Json::Null },
        None,
    ));
    assert_eq!(odd.error.as_deref(), Some("unknown op: dance"));
    assert!(log.is_empty());
    let req = tool_request(
        4,
        "start_game",
        args(vec![
            ("game_id", Json::Uint(id.0)),
            ("token", Json::text(&host)),
            ("host_token", Json::text(&host)),
        ]),
    );
    let started = reply_of(dispatch(&mut store, &mut wake, &mut log, 9, &req, None));
    assert!(started.ok, "{:?}", started.error);
    let failed = reply_of(dispatch(&mut store, &mut wake, &mut log, 10, &req, None));
    assert!(!failed.ok);
    let seen = log.recent(10);
    assert_eq!(seen.len(), 2);
    assert_eq!(seen[0].actor.name, "Host");
    assert!(seen[0].ok && !seen[1].ok);
    assert_eq!(seen[1].secs, 10);
    assert!(!seen[0].args.contains(&host));
}

#[test]
fn awaiting_is_checked_before_it_waits() {
    let (mut store, gid) = started_store();
    let mut wake = WakeCoordinator::new();
    let mut log = ActionLog::default();
    let bare = tool_request(1, "await_turn", args(vec![]));
    let r = reply_of(dispatch(&mut store, &mut wake, &mut log, 0, &bare, None));
    assert_eq!(r.error.as_deref(), Some("await_turn requires game_id"));
    let no_token = tool_request(2, "await_turn", args(vec![("game_id", Json::Uint(gid))]));
    let r = reply_of(dispatch(&mut store, &mut wake, &mut log, 0, &no_token, None));
    assert_eq!(r.error.as_deref(), Some("await_turn requires token"));
    let stranger = tool_request(
        3,
        "await_turn",
        args(vec![("game_id", Json::Uint(gid)), ("token", Json::text("x"))]),
    );
    let r = reply_of(dispatch(&mut store, &mut wake, &mut log, 0, &stranger, None));
    assert_eq!(r.error.as_deref(), Some("unauthorized"));
    let elsewhere = tool_request(
        4,
        "await_turn",
        args(vec![("game_id", Json::Uint(99)), ("token", Json::text("x"))]),
    );
    let r = reply_of(dispatch(&mut store, &mut wake, &mut log, 0, &elsewhere, None));
    assert_eq!(r.error.as_deref(), Some("unknown game_id 99"));
    assert_eq!(wake.game_id(), None);
}

#[test]
fn awaiting_binds_the_table_once() {
    let mut store = GameStore::new();
    let a = Game::create(five_names(), 1).unwrap();
    let b = Game::create(five_names(), 2).unwrap();
    let (ta, tb) = (a.player_tokens[1].as_str().to_string(), b.host_token.as_str().to_string());
    let ga = store.insert(a.game).0;
    let gb = store.insert(b.game).0;
    let mut wake = WakeCoordinator::new();
    let mut log = ActionLog::default();
    let req = tool_request(
        1,
        "await_turn",
        args(vec![
            ("game_id", Json::Uint(ga)),
            ("token", Json::text(&ta)),
            ("budget_secs", Json::Uint(9_999)),
        ]),
    );
    match dispatch(&mut store, &mut wake, &mut log, 0, &req, None) {
        Dispatch::Await(t) => {
            assert_eq!(t.actor, WakeActor::Player(SeatId(1)));
            assert_eq!(t.display_name, "P1");
            assert_eq!(t.budget_secs, 300);
        }
        Dispatch::Reply(r) => panic!("refused: {:?}", r.error),
    }
    assert_eq!(wake.game_id(), Some(ga));
    let other = tool_request(
        2,
        "await_turn",
        args(vec![("game_id", Json::Uint(gb)), ("token", Json::text(&tb))]),
    );
    let r = reply_of(dispatch(&mut store, &mut wake, &mut log, 0, &other, None));
    assert_eq!(
        r.error.as_deref(),
        Some("await_turn game_id=2 does not match bound game_id=1")
    );
    assert_eq!(wake.game_id(), Some(ga));
    let r = finish_await(&mut log, 3, &req, args(vec![("status", Json::text("idle"))]));
    assert!(r.ok);
    let body = r.result.unwrap();
    assert_eq!(body.get("structuredContent").unwrap().str_at("status"), Some("idle"));
    assert_eq!(
        body.array_at("content").unwrap()[0].str_at("text"),
        Some(r#"{"status":"idle"}"#)
    );
}

#[test]
fn completed_directed_replies_no_longer_wait() {
    let mut store = GameStore::new();
    let created = Game::create(five_names(), 42).unwrap();
    let host = created.host_token.clone();
    let reply_token = created.player_tokens[3].as_str().to_string();
    let mut game = created.game;
    game.start_game(&host, StartOpts::default()).unwrap();
    to_discussion(&mut game);
    game.say(SeatId(0), "what about you?".into(), Some(SeatId(3))).unwrap();
    let gid = store.insert(game).0;
    let mut wake = WakeCoordinator::new();
    wake.set_game_id(gid);
    let v = await_turn(&mut wake, &store, WakeActor::Player(SeatId(3)), "P3", 10);
    assert_eq!(text(&v, "kind"), "discuss", "{v:?}");
    let mut log = ActionLog::default();
    let req = tool_request(
        1,
        "say",
        args(vec![
            ("game_id", Json::Uint(gid)),
            ("token", Json::text(&reply_token)),
            ("player_token", Json::text(&reply_token)),
            ("text", Json::text("me? nothing")),
        ]),
    );
    let r = reply_of(dispatch(&mut store, &mut wake, &mut log, 0, &req, None));
    assert!(r.ok, "{:?}", r.error);
    assert_eq!(store.get(GameId(gid)).unwrap().pending_directed_wake, None);
    // An extra reply does not use up a turn of the round.
    assert_eq!(wake.rotation(), 0);
    assert!(wake.outstanding.is_empty());
}

#[test]
fn responses_are_read_against_their_request() {
    let ok = RpcResponse { id: 4, ok: true, result: Some(Json::Bool(true)), error: None };
    assert!(matches!(read_response(4, ok), Ok(Json::Bool(true))));
    let ok = RpcResponse { id: 4, ok: true, result: None, error: None };
    assert_eq!(
        read_response(5, ok).unwrap_err(),
        "id mismatch: expected 5, got 4"
    );
    let err = RpcResponse { id: 4, ok: false, result: None, error: None };
    assert_eq!(read_response(4, err).unwrap_err(), "unknown error");
    assert_eq!(bad_request("eof").error.as_deref(), Some("bad request: eof"));
    assert_eq!(read_timeout_secs("await_turn"), 360);
    assert_eq!(read_timeout_secs("say"), 120);
}

#[test]
fn host_tasks_are_completed_by_their_tools() {
    let pace = SchedTarget::Host(HostTask::PaceDiscussion);
    assert!(tool_completes_wake("open_nominations", &pace));
    let close = SchedTarget::Host(HostTask::CloseVoting);
    assert!(tool_completes_wake("close_vote", &close));
    assert!(!tool_completes_wake("end_nominations", &close));
    let end = SchedTarget::Host(HostTask::EndDay { in_discussion: false });
    assert!(tool_completes_wake("end_nominations", &end));
    assert!(!tool_completes_wake("open_nominations", &end));
}
