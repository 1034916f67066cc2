//! The tool layer and the JSON-RPC server.

use botc_mcp::comms::PublicEvent;
use botc_mcp::game::{Game, GameError, GameId, RoleAssignment, SeatId};
use botc_mcp::mcp_server;
use botc_mcp::roles::Character;
use botc_mcp::store::GameStore;
use botc_mcp::tools;
use botc_mcp::tools::rules_docs::{list_characters, load_rules_topic};
use botc_mcp::ToolError;
use serde_json::Value;

fn request(store: &mut GameStore, line: &str) -> Value {
    let resp = mcp_server::handle_line(store, line, None).expect("response");
    serde_json::from_str(&resp).expect("json")
}

fn call(store: &mut GameStore, name: &str, args: &str) -> Value {
    let line = format!(
        r#"{{"jsonrpc":"2.0","id":1,"method":"tools/call","params":{{"name":"{name}","arguments":{args}}}}}"#
    );
    request(store, &line)
}

#[test]
fn public_chat_is_shared_roles_are_not() {
    let lobby = Game::new_lobby(GameId(1), vec!["Alice".into(), "Bob".into()]);
    let mut game = lobby.game;
    let alice = lobby.player_tokens[0].clone();
    let bob = lobby.player_tokens[1].clone();

    game.start_game_assign_for_sketch(vec![
        (SeatId(0), Character::Empath),
        (SeatId(1), Character::Imp),
    ])
    .unwrap();

    tools::say(&mut game, &alice, "I am the Imp.".into()).unwrap();

    let log = tools::get_public_log(&game, &bob, 0).unwrap();
    assert!(log.iter().any(|(_, e)| matches!(
        e,
        PublicEvent::Chat { text, .. } if text == "I am the Imp."
    )));

    let bob_priv = tools::get_private_state(&game, &bob, 0).unwrap();
    assert_eq!(bob_priv.character_label.as_deref(), Some("Imp"));
    assert!(!bob_priv
        .private_messages_since
        .iter()
        .any(|(_, m)| format!("{m:?}").contains("Empath")));

    let alice_priv = tools::get_private_state(&game, &alice, 0).unwrap();
    assert_eq!(alice_priv.character_label.as_deref(), Some("Empath"));

    let pub_state = tools::get_public_state(&game, &bob).unwrap();
    let dump = format!("{:?}", pub_state.seats);
    assert!(!dump.contains("Empath") && !dump.contains("Imp"));
}

#[test]
fn drunk_private_state_shows_townsfolk_face_not_drunk() {
    let lobby = Game::new_lobby(GameId(2), vec!["Dana".into(), "Eve".into()]);
    let mut game = lobby.game;
    let dana = lobby.player_tokens[0].clone();

    game.start_game_assign(vec![
        RoleAssignment::drunk(SeatId(0), Character::Empath).unwrap(),
        RoleAssignment::normal(SeatId(1), Character::Imp),
    ])
    .unwrap();

    let facing = game.player_facing_character(SeatId(0));
    assert_eq!(facing, Some(Character::Empath));

    let dana_priv = tools::get_private_state(&game, &dana, 0).unwrap();
    assert_eq!(dana_priv.character_label.as_deref(), Some("Empath"));
    assert!(dana_priv.rules_path.as_deref().is_some_and(|p| p.contains("empath")));
    assert_ne!(dana_priv.character_label.as_deref(), Some("Drunk"));
    assert!(!dana_priv
        .private_messages_since
        .iter()
        .any(|(_, m)| format!("{m:?}").contains("Drunk")));

    // Grimoire truth still Drunk.
    let true_c = game.seats[0].true_character;
    assert_eq!(true_c, Some(Character::Drunk));
}

#[test]
fn drunk_without_face_rejected() {
    let lobby = Game::new_lobby(GameId(3), vec!["A".into()]);
    let mut game = lobby.game;
    let err = game
        .start_game_assign_for_sketch(vec![(SeatId(0), Character::Drunk)])
        .unwrap_err();
    assert!(matches!(err, GameError::IllegalAction(_)));
}

#[test]
fn create_game_via_tools_call() {
    let mut store = GameStore::new();
    let resp = call(
        &mut store,
        "create_game",
        r#"{"names":["A","B","C","D","E"],"seed":42}"#,
    );
    assert!(resp.get("error").is_none(), "{resp}");
    let sc = &resp["result"]["structuredContent"];
    assert_eq!(sc["game_id"], 1);
    assert!(sc["host_token"].as_str().unwrap().len() == 36);
    assert_eq!(sc["players"].as_array().unwrap().len(), 5);
}

#[test]
fn create_game_omitted_seed_is_not_zero() {
    let mut store = GameStore::new();
    let resp = call(&mut store, "create_game", r#"{"names":["A","B","C","D","E"]}"#);
    assert!(resp.get("error").is_none(), "{resp}");
    let sc = &resp["result"]["structuredContent"];
    let host = sc["host_token"].as_str().unwrap().to_string();
    let game_id = sc["game_id"].as_u64().unwrap();
    let host_resp = call(
        &mut store,
        "get_host_state",
        &format!(r#"{{"game_id":{game_id},"host_token":"{host}"}}"#),
    );
    assert!(host_resp.get("error").is_none(), "{host_resp}");
    let seed = host_resp["result"]["structuredContent"]["seed"].as_u64().expect("seed");
    let salt = host_resp["result"]["structuredContent"]["secret_salt"]
        .as_u64()
        .expect("secret_salt");
    // CSPRNG seed: must not silently default to 0.
    assert_ne!(seed, 0, "omitted seed must not default to 0");
    // secret_salt is present for host (player views never get it).
    let _ = salt;
}

#[test]
fn tools_list_includes_create_game() {
    let mut store = GameStore::new();
    let resp = request(&mut store, r#"{"jsonrpc":"2.0","id":1,"method":"tools/list"}"#);
    let tools = resp["result"]["tools"].as_array().unwrap();
    assert!(tools.iter().any(|t| t["name"] == "create_game"));
}

#[test]
fn initialize_ok() {
    let mut store = GameStore::new();
    let resp = request(
        &mut store,
        r#"{"jsonrpc":"2.0","id":0,"method":"initialize","params":{}}"#,
    );
    assert_eq!(resp["result"]["serverInfo"]["name"], "botc-mcp");
}

#[test]
fn gameplay_loop_topic_loads() {
    let (t, text) =
        load_rules_topic("gameplay_loop", Some("# Night and Day".into())).expect("topic");
    assert_eq!(t.id, "gameplay_loop");
    assert!(text.to_lowercase().contains("night") || text.contains("Day"));
}

#[test]
fn unknown_topic_errors() {
    assert!(load_rules_topic("not_a_real_topic", None).is_err());
    assert!(load_rules_topic("not_a_real_topic", Some("text".into())).is_err());
    assert_eq!(
        load_rules_topic("gameplay_loop", None).unwrap_err(),
        ToolError::BadRequest("rules topic file missing")
    );
}

#[test]
fn list_characters_covers_tb_pool() {
    let list = list_characters();
    assert!(list.len() >= 20);
    assert!(list.iter().any(|c| c.name == "Empath"));
    assert!(list.iter().any(|c| c.name == "Imp"));
}

#[test]
fn empath_rules_markdown_loads() {
    let v = tools::get_character_rules(
        Character::Empath,
        Some("# Empath\n\nTownsfolk · Good".into()),
    )
    .expect("sheet");
    assert!(v.text.contains("Empath"));
    assert!(v.text.contains("Townsfolk") || v.text.contains("Good"));
    assert_eq!(v.path, "docs/roles/townsfolk/empath.md");
    assert_eq!(
        tools::get_character_rules(Character::Empath, None).unwrap_err(),
        ToolError::BadRequest("character rules file missing")
    );
}

#[test]
fn strangers_are_refused_by_the_tools() {
    let lobby = Game::create((0..5).map(|i| format!("P{i}")).collect(), 5).unwrap();
    let stranger = botc_mcp::auth::Token::from_shared("nobody");
    assert_eq!(
        tools::get_public_state(&lobby.game, &stranger).unwrap_err(),
        ToolError::Unauthorized
    );
    // A player is no host.
    assert!(tools::get_host_state(&lobby.game, &lobby.player_tokens[0]).is_err());
    assert!(tools::get_host_state(&lobby.game, &lobby.host_token).is_ok());
}

#[test]
fn malformed_lines_are_answered() {
    let mut store = GameStore::new();
    let resp = request(&mut store, "{nonsense");
    assert_eq!(resp["error"]["code"], -32700);
    assert_eq!(resp["id"], Value::Null);
    // A notification gets no answer at all.
    assert!(mcp_server::handle_line(
        &mut store,
        r#"{"jsonrpc":"2.0","method":"notifications/initialized"}"#,
        None
    )
    .is_none());
    let resp = request(&mut store, r#"{"jsonrpc":"2.0","id":4,"method":"resources/list"}"#);
    assert_eq!(resp["error"]["code"], -32601);
    assert_eq!(resp["error"]["message"], "method not found: resources/list");
    let resp = request(&mut store, r#"{"jsonrpc":"2.0","id":5,"method":"tools/call","params":{}}"#);
    assert_eq!(resp["error"]["code"], -32602);
    assert_eq!(resp["id"], 5);
}

#[test]
fn tool_errors_are_results_and_argument_errors_are_not() {
    let mut store = GameStore::new();
    let resp = call(&mut store, "get_public_state", r#"{"game_id":7,"token":"x"}"#);
    assert_eq!(resp["result"]["isError"], true, "{resp}");
    let resp = call(&mut store, "get_public_state", r#"{"token":"x"}"#);
    assert_eq!(resp["error"]["code"], -32602, "{resp}");
    let resp = call(&mut store, "no_such_tool", "{}");
    assert_eq!(resp["result"]["isError"], true);
}

#[test]
fn a_game_can_be_started_over_the_wire() {
    let mut store = GameStore::new();
    let created = call(
        &mut store,
        "create_game",
        r#"{"names":["Alice","Bob","Cara","Dan","Eve"],"seed":7}"#,
    );
    let sc = &created["result"]["structuredContent"];
    let host = sc["host_token"].as_str().unwrap().to_string();
    let player = sc["players"][0]["token"].as_str().map(str::to_string);
    let started = call(
        &mut store,
        "start_game",
        &format!(r#"{{"game_id":1,"host_token":"{host}"}}"#),
    );
    assert_eq!(started["result"]["isError"], false, "{started}");
    let again = call(
        &mut store,
        "start_game",
        &format!(r#"{{"game_id":1,"host_token":"{host}"}}"#),
    );
    assert_eq!(again["result"]["isError"], true, "{again}");
    if let Some(p) = player {
        let denied = call(
            &mut store,
            "get_host_state",
            &format!(r#"{{"game_id":1,"host_token":"{p}"}}"#),
        );
        assert_eq!(denied["result"]["isError"], true, "{denied}");
    }
    // Reading changes nothing: the same question gets the same answer.
    let one = call(&mut store, "get_public_state", &format!(r#"{{"game_id":1,"token":"{host}"}}"#));
    let two = call(&mut store, "get_public_state", &format!(r#"{{"game_id":1,"token":"{host}"}}"#));
    assert_eq!(one, two);
}

#[test]
fn bare_tool_names_are_methods_too() {
    let mut store = GameStore::new();
    let resp = request(
        &mut store,
        r#"{"jsonrpc":"2.0","id":9,"method":"create_game","params":{"names":["A","B","C","D","E"]}}"#,
    );
    assert_eq!(resp["result"]["isError"], false, "{resp}");
    assert_eq!(store.len(), 1);
}

#[test]
fn display_names_read_back() {
    let all = botc_mcp::roles::all_characters();
    assert_eq!(all.len(), 22);
    for c in &all {
        let name = c.display_name();
        let read = mcp_server::args::parse_character(name).unwrap_or_else(|_| panic!("{name}"));
        assert_eq!(read, *c);
        assert_eq!(all.iter().filter(|d| d.display_name() == name).count(), 1);
    }
    assert!(mcp_server::args::parse_character("Librarians").is_err());
}

#[test]
fn created_games_hand_out_different_tokens() {
    let names: Vec<String> = (0..15).map(|i| format!("P{i}")).collect();
    let resp = tools::create_game_in_memory_with_salt(names, 3, Some(4));
    assert_eq!(resp.game_id, GameId(1));
    let mut tokens: Vec<String> =
        resp.players.iter().map(|p| p.player_token.as_str().to_string()).collect();
    tokens.push(resp.host_token.as_str().to_string());
    tokens.sort();
    tokens.dedup();
    assert_eq!(tokens.len(), 16);
}
