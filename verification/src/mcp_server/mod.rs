//! MCP-shaped JSON-RPC over engine tools.
//!
//! One request line in, one response line out. The wire shape matches common MCP harness
//! expectations (`initialize`, `tools/list`, `tools/call`); reading lines and guarding the store
//! is left to the caller.

use crate::auth::Token;
use crate::error::{GameError, ToolError};
use crate::game::ids::{GameId, SeatId};
use crate::game::night::NightActionPayload;
use crate::game::phase::{phase_notation, phase_string};
use crate::game::seat::seat_of;
use crate::game::setup::StartOpts;
use crate::game::state::{Game, GameView};
use crate::json::{items_view, json_text, parse, parse_outcome, print, Fields, Json, JsonView};
use crate::rng::random_u64;
use crate::roles::Character;
use crate::store::{GameStore, GameStoreView};
use crate::text::{str_eq, texts};
use crate::tools;
use crate::tools::{
    as_tool, as_tool_answer, by_host, by_player, creates, last_event_id, player_seat,
    CreateGameResponse, DayActionPayload, HostStateView, PrivateStateView,
};
use args::{
    any_token, any_token_of, ballot_in, character_named, day_payload_in, game_id_of,
    host_decision_in, host_token, host_token_of, invalid, invalid_params, names_in,
    night_payload_in, parse_ballot, parse_character, parse_day_payload, parse_host_decision,
    parse_names, parse_night_payload, parse_start_opts, require_game_id, require_seat,
    require_text, seat_or, start_opts_in, str_of, text_in, text_of, tool_err, tool_fault,
    NightPayloadView, RpcError, RpcErrorView, StartOptsView,
};
use replies::{
    character_rules_json, created_json, created_reply, host_state_json, host_state_reply,
    log_reply, private_state_json, private_state_reply, public_log_json, public_state_json,
    public_state_reply,
};
use vstd::prelude::*;
use vstd::string::*;

pub mod args;
pub mod host_laws;
pub mod names;
pub mod replies;
pub mod tool_laws;
pub mod view_laws;

verus! {

/// Version that the server reports of itself.
pub const SERVER_VERSION: &'static str = "0.1.0";

/// Every tool name, in the order of the listing.
pub open spec fn tool_names() -> Seq<&'static str> {
    seq![
        "create_game",
        "start_game",
        "get_public_state",
        "get_public_log",
        "get_private_state",
        "get_character_rules",
        "get_host_state",
        "say",
        "st_announce",
        "night_action",
        "day_action",
        "nominate",
        "vote",
        "pass_vote",
        "open_nominations",
        "close_vote",
        "end_nominations",
        "skip_night_action",
        "host_decide",
        "host_queue_lie",
    ]
}

/// Every tool name, in the order of the listing.
pub fn list_tool_names() -> (v: Vec<&'static str>)
    ensures
        v@ == tool_names(),
{
    let v = vec![
        "create_game",
        "start_game",
        "get_public_state",
        "get_public_log",
        "get_private_state",
        "get_character_rules",
        "get_host_state",
        "say",
        "st_announce",
        "night_action",
        "day_action",
        "nominate",
        "vote",
        "pass_vote",
        "open_nominations",
        "close_vote",
        "end_nominations",
        "skip_night_action",
        "host_decide",
        "host_queue_lie",
    ];
    assert(v@ =~= tool_names());
    v
}

/// Some tool has this name.
pub open spec fn names_a_tool(name: Seq<char>) -> bool {
    exists|i: int| 0 <= i < tool_names().len() && (#[trigger] tool_names()[i])@ == name
}

pub fn is_known_tool(name: &str) -> (b: bool)
    ensures
        b == names_a_tool(name@),
{
    let names = list_tool_names();
    let mut i: usize = 0;
    while i < names.len()
        invariant
            i <= names@.len(),
            names@ == tool_names(),
            forall|k: int| 0 <= k < i ==> (#[trigger] tool_names()[k])@ != name@,
        decreases names@.len() - i,
    {
        if str_eq(names[i], name) {
            assert(tool_names()[i as int]@ == name@);
            return true;
        }
        i += 1;
    }
    false
}

/// What the listing says about a tool.
pub open spec fn describe(name: Seq<char>) -> Seq<char> {
    if name == "create_game"@ {
        "Create a Trouble Brewing lobby (5–15 players); optional seed/secret_salt (omit = CSPRNG); returns game_id, host_token, player tokens"@
    } else if name == "start_game"@ {
        "Host: lock lobby, assign bag (or fixed assignments), enter first night"@
    } else if name == "get_public_state"@ {
        "Public phase/seats/winner snapshot (no roles, no pending night seat)"@
    } else if name == "get_public_log"@ {
        "Public event log since cursor"@
    } else if name == "get_private_state"@ {
        "Player private view: face identity, inbox, awaiting action"@
    } else if name == "get_character_rules"@ {
        "Public character sheet markdown for one TB character"@
    } else if name == "get_host_state"@ {
        "Host-only grimoire (true roles, markers, pending wake, seed, secret_salt)"@
    } else if name == "say"@ {
        "Player public table talk (no whispers)"@
    } else if name == "st_announce"@ {
        "Host public storyteller announcement"@
    } else if name == "night_action"@ {
        "Player night choice for current pending wake"@
    } else if name == "day_action"@ {
        "Player day ability (Slayer slay)"@
    } else if name == "nominate"@ {
        "Player nominate a living seat"@
    } else if name == "vote"@ {
        "Player cast yes/no on open nomination"@
    } else if name == "pass_vote"@ {
        "Dead player: abstain without spending ghost vote"@
    } else if name == "open_nominations"@ {
        "Host: Discussion → Nominations"@
    } else if name == "close_vote"@ {
        "Host: close current vote window"@
    } else if name == "end_nominations"@ {
        "Host: execute vote leader (if any), begin next night"@
    } else if name == "skip_night_action"@ {
        "Host: default pending wake or host decision and continue night"@
    } else if name == "host_decide"@ {
        "Host: resolve Mayor redirect or starpass pick"@
    } else if name == "host_queue_lie"@ {
        "Host: enqueue free-text false info for next disabled info result"@
    } else {
        "botc-mcp tool"@
    }
}

fn tool_description(name: &str) -> (s: &'static str)
    ensures
        s@ == describe(name@),
{
    if str_eq(name, "create_game") {
        "Create a Trouble Brewing lobby (5–15 players); optional seed/secret_salt (omit = CSPRNG); returns game_id, host_token, player tokens"
    } else if str_eq(name, "start_game") {
        "Host: lock lobby, assign bag (or fixed assignments), enter first night"
    } else if str_eq(name, "get_public_state") {
        "Public phase/seats/winner snapshot (no roles, no pending night seat)"
    } else if str_eq(name, "get_public_log") {
        "Public event log since cursor"
    } else if str_eq(name, "get_private_state") {
        "Player private view: face identity, inbox, awaiting action"
    } else if str_eq(name, "get_character_rules") {
        "Public character sheet markdown for one TB character"
    } else if str_eq(name, "get_host_state") {
        "Host-only grimoire (true roles, markers, pending wake, seed, secret_salt)"
    } else if str_eq(name, "say") {
        "Player public table talk (no whispers)"
    } else if str_eq(name, "st_announce") {
        "Host public storyteller announcement"
    } else if str_eq(name, "night_action") {
        "Player night choice for current pending wake"
    } else if str_eq(name, "day_action") {
        "Player day ability (Slayer slay)"
    } else if str_eq(name, "nominate") {
        "Player nominate a living seat"
    } else if str_eq(name, "vote") {
        "Player cast yes/no on open nomination"
    } else if str_eq(name, "pass_vote") {
        "Dead player: abstain without spending ghost vote"
    } else if str_eq(name, "open_nominations") {
        "Host: Discussion → Nominations"
    } else if str_eq(name, "close_vote") {
        "Host: close current vote window"
    } else if str_eq(name, "end_nominations") {
        "Host: execute vote leader (if any), begin next night"
    } else if str_eq(name, "skip_night_action") {
        "Host: default pending wake or host decision and continue night"
    } else if str_eq(name, "host_decide") {
        "Host: resolve Mayor redirect or starpass pick"
    } else if str_eq(name, "host_queue_lie") {
        "Host: enqueue free-text false info for next disabled info result"
    } else {
        "botc-mcp tool"
    }
}

/// One entry of the tool listing.
pub open spec fn descriptor(name: Seq<char>) -> JsonView {
    JsonView::object().with("name"@, JsonView::Str(name)).with(
        "description"@,
        JsonView::Str(describe(name)),
    ).with("inputSchema"@, JsonView::object().with("type"@, JsonView::Str("object"@)))
}

/// One entry of the tool listing.
pub fn tool_descriptor(name: &str) -> (j: Json)
    ensures
        j@ == descriptor(name@),
{
    Fields::new().put("name", Json::text(name)).put(
        "description",
        Json::text(tool_description(name)),
    ).put("inputSchema", Fields::new().put("type", Json::text("object")).done()).done()
}

/// The tool listing.
pub open spec fn descriptors() -> Seq<JsonView> {
    tool_names().map_values(|n: &'static str| descriptor(n@))
}

pub fn list_tool_descriptors() -> (v: Vec<Json>)
    ensures
        items_view(v@) == descriptors(),
{
    let names = list_tool_names();
    let mut v: Vec<Json> = Vec::new();
    let mut i: usize = 0;
    while i < names.len()
        invariant
            i <= names@.len(),
            names@ == tool_names(),
            v@.len() == i,
            forall|k: int| 0 <= k < i ==> (#[trigger] v@[k])@ == descriptor(tool_names()[k]@),
        decreases names@.len() - i,
    {
        v.push(tool_descriptor(names[i]));
        i += 1;
    }
    assert(items_view(v@) =~= descriptors());
    v
}

// ---------------------------------------------------------------------------
// Outcomes
// ---------------------------------------------------------------------------

/// What a tool answers.
pub type Reply = Result<JsonView, RpcErrorView>;

/// A reply as it reads.
pub open spec fn reply_of(r: Result<Json, RpcError>) -> Reply {
    match r {
        Ok(j) => Ok(j@),
        Err(e) => Err(e@),
    }
}

/// A tool outcome as a reply.
pub open spec fn replied(r: Result<JsonView, ToolError>) -> Reply {
    match r {
        Ok(j) => Ok(j),
        Err(e) => Err(tool_fault(e)),
    }
}

/// The error for a game that is not there.
pub open spec fn no_game() -> RpcErrorView {
    tool_fault(ToolError::BadRequest("unknown game_id"))
}

/// A request on a stored game: unknown games are refused, known ones move to the state that
/// `act` gives.
pub open spec fn in_game(
    store: GameStoreView,
    id: GameId,
    act: spec_fn(GameView) -> (GameView, Result<JsonView, ToolError>),
) -> (GameStoreView, Reply) {
    match store.game(id) {
        None => (store, Err(no_game())),
        Some(g) => (store.with_game(id, act(g).0), replied(act(g).1)),
    }
}

/// What became of a game, with the answer that goes with it.
pub open spec fn settled(
    outcome: Result<GameView, ToolError>,
    before: GameView,
    answer: spec_fn(GameView) -> JsonView,
) -> (GameView, Result<JsonView, ToolError>) {
    match outcome {
        Ok(g) => (g, Ok(answer(g))),
        Err(e) => (before, Err(e)),
    }
}

/// The bare answer to a granted request.
pub open spec fn ok_reply() -> JsonView {
    JsonView::object().with("ok"@, JsonView::Bool(true))
}

/// The answer to a granted request that may change the phase.
pub open spec fn phase_reply(g: GameView) -> JsonView {
    ok_reply().with("phase"@, JsonView::Str(phase_notation(g.phase)))
}

fn ok_json() -> (j: Json)
    ensures
        j@ == ok_reply(),
{
    Fields::new().put("ok", Json::Bool(true)).done()
}

fn phase_json(game: &Game) -> (j: Json)
    ensures
        j@ == phase_reply(game@),
{
    Fields::new().put("ok", Json::Bool(true)).put(
        "phase",
        Json::text(phase_string(&game.phase).as_str()),
    ).done()
}

/// The game and the player token of a request, or the first error.
pub open spec fn player_request(args: JsonView) -> Result<(GameId, Seq<char>), RpcErrorView> {
    match game_id_of(args) {
        Err(e) => Err(e),
        Ok(id) => match any_token_of(args) {
            Err(e) => Err(e),
            Ok(t) => Ok((id, t)),
        },
    }
}

/// The game and the host token of a request, or the first error.
pub open spec fn host_request(args: JsonView) -> Result<(GameId, Seq<char>), RpcErrorView> {
    match game_id_of(args) {
        Err(e) => Err(e),
        Ok(id) => match host_token_of(args) {
            Err(e) => Err(e),
            Ok(t) => Ok((id, t)),
        },
    }
}

/// A read request says what the arguments say.
pub open spec fn request_view(r: Result<(GameId, Token), RpcError>) -> Result<
    (GameId, Seq<char>),
    RpcErrorView,
> {
    match r {
        Ok((id, t)) => Ok((id, t@)),
        Err(e) => Err(e@),
    }
}

fn read_player_request(args: &Json) -> (r: Result<(GameId, Token), RpcError>)
    ensures
        request_view(r) == player_request(args@),
{
    match require_game_id(args) {
        Err(e) => Err(e),
        Ok(id) => match any_token(args) {
            Err(e) => Err(e),
            Ok(t) => Ok((id, t)),
        },
    }
}

fn read_host_request(args: &Json) -> (r: Result<(GameId, Token), RpcError>)
    ensures
        request_view(r) == host_request(args@),
{
    match require_game_id(args) {
        Err(e) => Err(e),
        Ok(id) => match host_token(args) {
            Err(e) => Err(e),
            Ok(t) => Ok((id, t)),
        },
    }
}

fn unknown_game() -> (e: RpcError)
    ensures
        e@ == no_game(),
{
    tool_err(ToolError::BadRequest("unknown game_id"))
}

// ---------------------------------------------------------------------------
// Tool handlers
// ---------------------------------------------------------------------------

/// What `create_game` does. Tokens, and a seed or salt that was not given, come from chance: the
/// lobby that goes into the store is a fresh one for the given names, with the given seed and
/// salt where they are given, and the reply hands out its credentials.
pub open spec fn creates_game(
    before: GameStoreView,
    args: JsonView,
    after: GameStoreView,
    reply: Reply,
) -> bool {
    match names_in(args) {
        Err(e) => after == before && reply == Err::<JsonView, RpcErrorView>(e),
        Ok(names) => if !(5 <= names.len() <= 15) {
            after == before && reply == Err::<JsonView, RpcErrorView>(
                tool_fault(
                    ToolError::Game(
                        GameError::BadRequest("player count must be between 5 and 15 inclusive"),
                    ),
                ),
            )
        } else {
            exists|resp: CreateGameResponse, strings: Seq<String>, seed: u64|
                {
                    &&& #[trigger] creates(
                        before,
                        after,
                        resp,
                        strings,
                        seed,
                        args.uint_at("secret_salt"@),
                    )
                    &&& texts(strings) == names
                    &&& args.uint_at("seed"@) matches Some(s) ==> seed == s
                    &&& reply == Ok::<JsonView, RpcErrorView>(created_reply(resp))
                }
        },
    }
}

fn tool_create_game(store: &mut GameStore, args: &Json) -> (r: Result<Json, RpcError>)
    ensures
        creates_game(old(store)@, args@, final(store)@, reply_of(r)),
{
    let names = match parse_names(args) {
        Ok(v) => v,
        Err(e) => return Err(e),
    };
    let ghost strings = names@;
    // Never default to seed 0: omit → random secret so bag/draws are not offline-reproducible.
    let seed: u64 = match args.u64_at("seed") {
        Some(s) => s,
        None => random_u64(),
    };
    // Optional salt: omit → random (production); provide with seed for full deterministic replay.
    let secret_salt = args.u64_at("secret_salt");
    match tools::create_game(store, names, seed, secret_salt) {
        Ok(resp) => {
            let j = created_json(&resp);
            assert(creates(old(store)@, store@, resp, strings, seed, secret_salt));
            Ok(j)
        },
        Err(e) => Err(tool_err(e)),
    }
}

/// Start options of this content.
pub open spec fn opts_of(v: StartOptsView) -> StartOpts {
    choose|o: StartOpts| o@ == v
}

/// Starting a game depends on what the options say and on nothing else.
pub proof fn start_follows_the_options(g: GameView, host: Seq<char>, a: StartOpts, b: StartOpts)
    requires
        a@ == b@,
    ensures
        g.started(host, a) == g.started(host, b),
{
    assert(g.bag_for(a.assignments) == g.bag_for(b.assignments));
    assert(g.deal_for(a) == g.deal_for(b));
}

/// What `start_game` does.
pub open spec fn start_outcome(store: GameStoreView, args: JsonView) -> (GameStoreView, Reply) {
    match host_request(args) {
        Err(e) => (store, Err(e)),
        Ok((id, host)) => match start_opts_in(args) {
            Err(e) => (store, Err(e)),
            Ok(opts) => in_game(
                store,
                id,
                |g: GameView|
                    {
                        let (h, r) = g.started(host, opts_of(opts));
                        match as_tool_answer(r) {
                            Ok(_) => (h, Ok(phase_reply(h))),
                            Err(e) => (h, Err(e)),
                        }
                    },
            ),
        },
    }
}

fn tool_start_game(store: &mut GameStore, args: &Json) -> (r: Result<Json, RpcError>)
    ensures
        (final(store)@, reply_of(r)) == start_outcome(old(store)@, args@),
{
    let (id, host) = match read_host_request(args) {
        Ok(p) => p,
        Err(e) => return Err(e),
    };
    let opts = match parse_start_opts(args) {
        Ok(o) => o,
        Err(e) => return Err(e),
    };
    proof {
        assert(opts_of(opts@)@ == opts@);
        if let Some(g) = store@.game(id) {
            start_follows_the_options(g, host@, opts, opts_of(opts@));
        }
    }
    match store.get_mut(id) {
        None => Err(unknown_game()),
        Some(game) => match tools::start_game(game, &host, opts) {
            Ok(()) => Ok(phase_json(game)),
            Err(e) => Err(tool_err(e)),
        },
    }
}

/// A look at a stored game.
pub open spec fn look_at(
    store: GameStoreView,
    id: GameId,
    see: spec_fn(GameView) -> Result<JsonView, ToolError>,
) -> Reply {
    match store.game(id) {
        None => Err(no_game()),
        Some(g) => replied(see(g)),
    }
}

/// What `get_public_state` answers.
pub open spec fn public_state_outcome(store: GameStoreView, args: JsonView) -> Reply {
    match player_request(args) {
        Err(e) => Err(e),
        Ok((id, token)) => look_at(
            store,
            id,
            |g: GameView|
                match g.tokens.actor(token) {
                    None => Err(ToolError::Unauthorized),
                    Some(_) => Ok(
                        public_state_reply(phase_notation(g.phase), g.roster(), g.winner),
                    ),
                },
        ),
    }
}

fn tool_get_public_state(store: &GameStore, args: &Json) -> (r: Result<Json, RpcError>)
    ensures
        reply_of(r) == public_state_outcome(store@, args@),
{
    let (id, token) = match read_player_request(args) {
        Ok(p) => p,
        Err(e) => return Err(e),
    };
    match store.get(id) {
        None => Err(unknown_game()),
        Some(game) => match tools::get_public_state(game, &token) {
            Ok(view) => Ok(public_state_json(&view)),
            Err(e) => Err(tool_err(e)),
        },
    }
}

/// The number under a key, 0 where there is none.
pub open spec fn cursor_in(v: Option<JsonView>) -> u64 {
    match v {
        Some(j) => match j.uint() {
            Some(n) => n,
            None => 0,
        },
        None => 0,
    }
}

fn read_cursor(v: Option<&Json>) -> (n: u64)
    ensures
        n == cursor_in(crate::json::opt_json(v)),
{
    match v {
        Some(j) => match j.as_u64() {
            Some(n) => n,
            None => 0,
        },
        None => 0,
    }
}

/// What `get_public_log` answers.
pub open spec fn public_log_outcome(store: GameStoreView, args: JsonView) -> Reply {
    match player_request(args) {
        Err(e) => Err(e),
        Ok((id, token)) => look_at(
            store,
            id,
            |g: GameView|
                match g.tokens.actor(token) {
                    None => Err(ToolError::Unauthorized),
                    Some(_) => Ok(
                        log_reply(g.public_log.since(cursor_in(args.field("cursor"@)))),
                    ),
                },
        ),
    }
}

fn tool_get_public_log(store: &GameStore, args: &Json) -> (r: Result<Json, RpcError>)
    ensures
        reply_of(r) == public_log_outcome(store@, args@),
{
    let (id, token) = match read_player_request(args) {
        Ok(p) => p,
        Err(e) => return Err(e),
    };
    let cursor = read_cursor(args.get("cursor"));
    match store.get(id) {
        None => Err(unknown_game()),
        Some(game) => match tools::get_public_log(game, &token, cursor) {
            Ok(log) => Ok(public_log_json(&log)),
            Err(e) => Err(tool_err(e)),
        },
    }
}

/// What `get_private_state` answers: the JSON of a view that shows what the player may see.
pub open spec fn answers_private_state(store: GameStoreView, args: JsonView, reply: Reply) -> bool {
    match player_request(args) {
        Err(e) => reply == Err::<JsonView, RpcErrorView>(e),
        Ok((id, token)) => match store.game(id) {
            None => reply == Err::<JsonView, RpcErrorView>(no_game()),
            Some(g) => match player_seat(g, token, "host has no private player state") {
                Err(e) => reply == Err::<JsonView, RpcErrorView>(tool_fault(e)),
                Ok(seat) => match seat_of(g.seats, seat) {
                    None => reply == Err::<JsonView, RpcErrorView>(
                        tool_fault(ToolError::Game(GameError::NoSuchSeat)),
                    ),
                    Some(s) => exists|v: PrivateStateView| #[trigger]
                        v.shows(
                            g,
                            s,
                            seat,
                            cursor_in(args.either("private_cursor"@, "cursor"@)),
                        ) && reply == Ok::<JsonView, RpcErrorView>(private_state_reply(v)),
                },
            },
        },
    }
}

fn tool_get_private_state(store: &GameStore, args: &Json) -> (r: Result<Json, RpcError>)
    ensures
        answers_private_state(store@, args@, reply_of(r)),
{
    let (id, token) = match read_player_request(args) {
        Ok(p) => p,
        Err(e) => return Err(e),
    };
    let cursor = read_cursor(args.get_either("private_cursor", "cursor"));
    match store.get(id) {
        None => Err(unknown_game()),
        Some(game) => match tools::get_private_state(game, &token, cursor) {
            Ok(view) => Ok(private_state_json(&view)),
            Err(e) => Err(tool_err(e)),
        },
    }
}

/// The character whose sheet the arguments ask for.
pub open spec fn sheet_in(args: JsonView) -> Result<Character, RpcErrorView> {
    match text_of(args.either("character"@, "name"@)) {
        None => Err(invalid("get_character_rules requires character name"@)),
        Some(name) => character_named(name),
    }
}

fn read_sheet_request(args: &Json) -> (r: Result<Character, RpcError>)
    ensures
        args::read(r) == sheet_in(args@),
{
    match str_of(args.get_either("character", "name")) {
        None => Err(invalid_params("get_character_rules requires character name")),
        Some(name) => parse_character(name),
    }
}

/// What `get_character_rules` answers, given what the character's rules file holds.
pub open spec fn rules_outcome(args: JsonView, sheet: Option<Seq<char>>) -> Reply {
    match sheet_in(args) {
        Err(e) => Err(e),
        Ok(c) => match sheet {
            None => Err(tool_fault(ToolError::BadRequest("character rules file missing"))),
            Some(text) => Ok(
                JsonView::object().with(
                    "name"@,
                    JsonView::Str(crate::roles::data::name_of(c)),
                ).with("path"@, JsonView::Str(crate::roles::data::rules_path_of(c))).with(
                    "team"@,
                    JsonView::Str(tools::rules_docs::team_word(crate::roles::team_of(c))),
                ).with(
                    "character_type"@,
                    JsonView::Str(tools::rules_docs::type_word(crate::roles::type_of(c))),
                ).with("text"@, JsonView::Str(text)),
            ),
        },
    }
}

fn tool_get_character_rules(args: &Json, sheet: Option<String>) -> (r: Result<Json, RpcError>)
    ensures
        reply_of(r) == rules_outcome(args@, crate::comms::opt_text(sheet)),
{
    let c = match read_sheet_request(args) {
        Ok(c) => c,
        Err(e) => return Err(e),
    };
    match tools::get_character_rules(c, sheet) {
        Ok(view) => Ok(character_rules_json(&view)),
        Err(e) => Err(tool_err(e)),
    }
}

/// What `get_host_state` answers: the JSON of a view that shows the grimoire.
pub open spec fn answers_host_state(store: GameStoreView, args: JsonView, reply: Reply) -> bool {
    match player_request(args) {
        Err(e) => reply == Err::<JsonView, RpcErrorView>(e),
        Ok((id, token)) => match store.game(id) {
            None => reply == Err::<JsonView, RpcErrorView>(no_game()),
            Some(g) => if g.is_host(token) {
                exists|v: HostStateView| #[trigger]
                    v.shows(g) && reply == Ok::<JsonView, RpcErrorView>(host_state_reply(v))
            } else {
                reply == Err::<JsonView, RpcErrorView>(tool_fault(ToolError::Unauthorized))
            },
        },
    }
}

fn tool_get_host_state(store: &GameStore, args: &Json) -> (r: Result<Json, RpcError>)
    ensures
        answers_host_state(store@, args@, reply_of(r)),
{
    let (id, token) = match read_player_request(args) {
        Ok(p) => p,
        Err(e) => return Err(e),
    };
    match store.get(id) {
        None => Err(unknown_game()),
        Some(game) => match tools::get_host_state(game, &token) {
            Ok(view) => Ok(host_state_json(&view)),
            Err(e) => Err(tool_err(e)),
        },
    }
}

/// The answer with the id of the last event.
pub open spec fn event_id_reply(g: GameView) -> JsonView {
    JsonView::object().with("event_id"@, JsonView::Int(last_event_id(g.public_log) as int))
}

/// What `say` does.
pub open spec fn say_outcome(store: GameStoreView, args: JsonView) -> (GameStoreView, Reply) {
    match player_request(args) {
        Err(e) => (store, Err(e)),
        Ok((id, token)) => match text_in(args, "say requires text"@) {
            Err(e) => (store, Err(e)),
            Ok(text) => in_game(
                store,
                id,
                |g: GameView|
                    settled(
                        by_player(
                            g,
                            token,
                            "players use say; host uses st_announce",
                            |seat: SeatId| g.said(seat, text, None),
                        ),
                        g,
                        |h: GameView| event_id_reply(h),
                    ),
            ),
        },
    }
}

fn tool_say(store: &mut GameStore, args: &Json) -> (r: Result<Json, RpcError>)
    ensures
        (final(store)@, reply_of(r)) == say_outcome(old(store)@, args@),
{
    let (id, token) = match read_player_request(args) {
        Ok(p) => p,
        Err(e) => return Err(e),
    };
    let text = match require_text(args, "say requires text") {
        Ok(s) => s,
        Err(e) => return Err(e),
    };
    match store.get_mut(id) {
        None => Err(unknown_game()),
        Some(game) => match tools::say(game, &token, text) {
            Ok(event_id) => Ok(Fields::new().put("event_id", Json::Uint(event_id)).done()),
            Err(e) => Err(tool_err(e)),
        },
    }
}

/// What `st_announce` does.
pub open spec fn announce_outcome(store: GameStoreView, args: JsonView) -> (GameStoreView, Reply) {
    match host_request(args) {
        Err(e) => (store, Err(e)),
        Ok((id, host)) => match text_in(args, "st_announce requires text"@) {
            Err(e) => (store, Err(e)),
            Ok(text) => in_game(
                store,
                id,
                |g: GameView|
                    settled(
                        if g.is_host(host) {
                            Ok(g.announce(text))
                        } else {
                            Err(ToolError::Unauthorized)
                        },
                        g,
                        |h: GameView| event_id_reply(h),
                    ),
            ),
        },
    }
}

fn tool_st_announce(store: &mut GameStore, args: &Json) -> (r: Result<Json, RpcError>)
    ensures
        (final(store)@, reply_of(r)) == announce_outcome(old(store)@, args@),
{
    let (id, host) = match read_host_request(args) {
        Ok(p) => p,
        Err(e) => return Err(e),
    };
    let text = match require_text(args, "st_announce requires text") {
        Ok(s) => s,
        Err(e) => return Err(e),
    };
    match store.get_mut(id) {
        None => Err(unknown_game()),
        Some(game) => match tools::st_announce(game, &host, text) {
            Ok(event_id) => Ok(Fields::new().put("event_id", Json::Uint(event_id)).done()),
            Err(e) => Err(tool_err(e)),
        },
    }
}

/// A night choice of this content.
pub open spec fn payload_of(v: NightPayloadView) -> NightActionPayload {
    choose|p: NightActionPayload| p@ == v
}

/// A night choice takes effect by what it says and by nothing else.
pub proof fn night_action_follows_the_payload(
    g: GameView,
    token: Seq<char>,
    a: NightActionPayload,
    b: NightActionPayload,
)
    requires
        a@ == b@,
    ensures
        g.night_action_by(token, a) == g.night_action_by(token, b),
{
}

/// What `night_action` does.
pub open spec fn night_outcome(store: GameStoreView, args: JsonView) -> (GameStoreView, Reply) {
    match player_request(args) {
        Err(e) => (store, Err(e)),
        Ok((id, token)) => match night_payload_in(args) {
            Err(e) => (store, Err(e)),
            Ok(payload) => in_game(
                store,
                id,
                |g: GameView|
                    settled(
                        as_tool(g.night_action_by(token, payload_of(payload))),
                        g,
                        |h: GameView| ok_reply(),
                    ),
            ),
        },
    }
}

fn tool_night_action(store: &mut GameStore, args: &Json) -> (r: Result<Json, RpcError>)
    ensures
        (final(store)@, reply_of(r)) == night_outcome(old(store)@, args@),
{
    let (id, token) = match read_player_request(args) {
        Ok(p) => p,
        Err(e) => return Err(e),
    };
    let payload = match parse_night_payload(args) {
        Ok(p) => p,
        Err(e) => return Err(e),
    };
    proof {
        assert(payload_of(payload@)@ == payload@);
        if let Some(g) = store@.game(id) {
            night_action_follows_the_payload(g, token@, payload, payload_of(payload@));
        }
    }
    match store.get_mut(id) {
        None => Err(unknown_game()),
        Some(game) => match tools::night_action(game, &token, payload) {
            Ok(()) => Ok(ok_json()),
            Err(e) => Err(tool_err(e)),
        },
    }
}

/// What `day_action` does.
pub open spec fn day_outcome(store: GameStoreView, args: JsonView) -> (GameStoreView, Reply) {
    match player_request(args) {
        Err(e) => (store, Err(e)),
        Ok((id, token)) => match day_payload_in(args) {
            Err(e) => (store, Err(e)),
            Ok(DayActionPayload::Slay { target }) => in_game(
                store,
                id,
                |g: GameView|
                    settled(
                        by_player(
                            g,
                            token,
                            "host cannot use day_action",
                            |seat: SeatId| g.slew(seat, target),
                        ),
                        g,
                        |h: GameView| ok_reply(),
                    ),
            ),
        },
    }
}

fn tool_day_action(store: &mut GameStore, args: &Json) -> (r: Result<Json, RpcError>)
    ensures
        (final(store)@, reply_of(r)) == day_outcome(old(store)@, args@),
{
    let (id, token) = match read_player_request(args) {
        Ok(p) => p,
        Err(e) => return Err(e),
    };
    let payload = match parse_day_payload(args) {
        Ok(p) => p,
        Err(e) => return Err(e),
    };
    match store.get_mut(id) {
        None => Err(unknown_game()),
        Some(game) => match tools::day_action(game, &token, payload) {
            Ok(()) => Ok(ok_json()),
            Err(e) => Err(tool_err(e)),
        },
    }
}

/// What `nominate` does.
pub open spec fn nominate_outcome(store: GameStoreView, args: JsonView) -> (GameStoreView, Reply) {
    match player_request(args) {
        Err(e) => (store, Err(e)),
        Ok((id, token)) => match seat_or(args.field("target"@), "nominate requires target"@) {
            Err(e) => (store, Err(e)),
            Ok(target) => in_game(
                store,
                id,
                |g: GameView|
                    settled(
                        by_player(
                            g,
                            token,
                            "host cannot nominate",
                            |seat: SeatId| g.nominated(seat, target),
                        ),
                        g,
                        |h: GameView| ok_reply(),
                    ),
            ),
        },
    }
}

fn tool_nominate(store: &mut GameStore, args: &Json) -> (r: Result<Json, RpcError>)
    ensures
        (final(store)@, reply_of(r)) == nominate_outcome(old(store)@, args@),
{
    let (id, token) = match read_player_request(args) {
        Ok(p) => p,
        Err(e) => return Err(e),
    };
    let target = match require_seat(args.get("target"), "nominate requires target") {
        Ok(s) => s,
        Err(e) => return Err(e),
    };
    match store.get_mut(id) {
        None => Err(unknown_game()),
        Some(game) => match tools::nominate(game, &token, target) {
            Ok(()) => Ok(ok_json()),
            Err(e) => Err(tool_err(e)),
        },
    }
}

/// What `vote` does.
pub open spec fn vote_outcome(store: GameStoreView, args: JsonView) -> (GameStoreView, Reply) {
    match player_request(args) {
        Err(e) => (store, Err(e)),
        Ok((id, token)) => match ballot_in(args) {
            Err(e) => (store, Err(e)),
            Ok((nominee, support)) => in_game(
                store,
                id,
                |g: GameView|
                    settled(
                        by_player(
                            g,
                            token,
                            "host cannot vote",
                            |seat: SeatId| g.voted(seat, nominee, support),
                        ),
                        g,
                        |h: GameView| ok_reply(),
                    ),
            ),
        },
    }
}

fn tool_vote(store: &mut GameStore, args: &Json) -> (r: Result<Json, RpcError>)
    ensures
        (final(store)@, reply_of(r)) == vote_outcome(old(store)@, args@),
{
    let (id, token) = match read_player_request(args) {
        Ok(p) => p,
        Err(e) => return Err(e),
    };
    let (nominee, support) = match parse_ballot(args) {
        Ok(b) => b,
        Err(e) => return Err(e),
    };
    match store.get_mut(id) {
        None => Err(unknown_game()),
        Some(game) => match tools::vote(game, &token, nominee, support) {
            Ok(()) => Ok(ok_json()),
            Err(e) => Err(tool_err(e)),
        },
    }
}

/// What `pass_vote` does.
pub open spec fn pass_outcome(store: GameStoreView, args: JsonView) -> (GameStoreView, Reply) {
    match player_request(args) {
        Err(e) => (store, Err(e)),
        Ok((id, token)) => in_game(
            store,
            id,
            |g: GameView|
                settled(
                    by_player(
                        g,
                        token,
                        "host cannot pass_vote",
                        |seat: SeatId| g.passed(seat),
                    ),
                    g,
                    |h: GameView| ok_reply(),
                ),
        ),
    }
}

fn tool_pass_vote(store: &mut GameStore, args: &Json) -> (r: Result<Json, RpcError>)
    ensures
        (final(store)@, reply_of(r)) == pass_outcome(old(store)@, args@),
{
    let (id, token) = match read_player_request(args) {
        Ok(p) => p,
        Err(e) => return Err(e),
    };
    match store.get_mut(id) {
        None => Err(unknown_game()),
        Some(game) => match tools::pass_vote(game, &token) {
            Ok(()) => Ok(ok_json()),
            Err(e) => Err(tool_err(e)),
        },
    }
}

/// A host request that may change the phase.
pub open spec fn host_phase_outcome(
    store: GameStoreView,
    args: JsonView,
    outcome: spec_fn(GameView, Seq<char>) -> Result<GameView, ToolError>,
) -> (GameStoreView, Reply) {
    match host_request(args) {
        Err(e) => (store, Err(e)),
        Ok((id, host)) => in_game(
            store,
            id,
            |g: GameView| settled(outcome(g, host), g, |h: GameView| phase_reply(h)),
        ),
    }
}

/// What `open_nominations` does.
pub open spec fn open_outcome(store: GameStoreView, args: JsonView) -> (GameStoreView, Reply) {
    host_phase_outcome(
        store,
        args,
        |g: GameView, host: Seq<char>| as_tool(g.host_request(host, g.nominations_opened())),
    )
}

fn tool_open_nominations(store: &mut GameStore, args: &Json) -> (r: Result<Json, RpcError>)
    ensures
        (final(store)@, reply_of(r)) == open_outcome(old(store)@, args@),
{
    let (id, host) = match read_host_request(args) {
        Ok(p) => p,
        Err(e) => return Err(e),
    };
    match store.get_mut(id) {
        None => Err(unknown_game()),
        Some(game) => match tools::open_nominations(game, &host) {
            Ok(()) => Ok(phase_json(game)),
            Err(e) => Err(tool_err(e)),
        },
    }
}

/// What `close_vote` does.
pub open spec fn close_outcome(store: GameStoreView, args: JsonView) -> (GameStoreView, Reply) {
    host_phase_outcome(
        store,
        args,
        |g: GameView, host: Seq<char>| by_host(g, host, g.vote_closed()),
    )
}

fn tool_close_vote(store: &mut GameStore, args: &Json) -> (r: Result<Json, RpcError>)
    ensures
        (final(store)@, reply_of(r)) == close_outcome(old(store)@, args@),
{
    let (id, host) = match read_host_request(args) {
        Ok(p) => p,
        Err(e) => return Err(e),
    };
    match store.get_mut(id) {
        None => Err(unknown_game()),
        Some(game) => match tools::close_vote(game, &host) {
            Ok(()) => Ok(phase_json(game)),
            Err(e) => Err(tool_err(e)),
        },
    }
}

/// What `end_nominations` does.
pub open spec fn end_outcome(store: GameStoreView, args: JsonView) -> (GameStoreView, Reply) {
    host_phase_outcome(
        store,
        args,
        |g: GameView, host: Seq<char>| as_tool(g.host_request(host, g.nominations_ended())),
    )
}

fn tool_end_nominations(store: &mut GameStore, args: &Json) -> (r: Result<Json, RpcError>)
    ensures
        (final(store)@, reply_of(r)) == end_outcome(old(store)@, args@),
{
    let (id, host) = match read_host_request(args) {
        Ok(p) => p,
        Err(e) => return Err(e),
    };
    match store.get_mut(id) {
        None => Err(unknown_game()),
        Some(game) => match tools::end_nominations(game, &host) {
            Ok(()) => Ok(phase_json(game)),
            Err(e) => Err(tool_err(e)),
        },
    }
}

/// What `skip_night_action` does.
pub open spec fn skip_outcome(store: GameStoreView, args: JsonView) -> (GameStoreView, Reply) {
    match host_request(args) {
        Err(e) => (store, Err(e)),
        Ok((id, host)) => in_game(
            store,
            id,
            |g: GameView|
                {
                    let (h, r) = g.skipped(host);
                    match as_tool_answer(r) {
                        Ok(_) => (h, Ok(phase_reply(h))),
                        Err(e) => (h, Err(e)),
                    }
                },
        ),
    }
}

fn tool_skip_night_action(store: &mut GameStore, args: &Json) -> (r: Result<Json, RpcError>)
    ensures
        (final(store)@, reply_of(r)) == skip_outcome(old(store)@, args@),
{
    let (id, host) = match read_host_request(args) {
        Ok(p) => p,
        Err(e) => return Err(e),
    };
    match store.get_mut(id) {
        None => Err(unknown_game()),
        Some(game) => match tools::skip_night_action(game, &host) {
            Ok(()) => Ok(phase_json(game)),
            Err(e) => Err(tool_err(e)),
        },
    }
}

/// What `host_queue_lie` does.
pub open spec fn lie_outcome(store: GameStoreView, args: JsonView) -> (GameStoreView, Reply) {
    match host_request(args) {
        Err(e) => (store, Err(e)),
        Ok((id, host)) => match text_in(args, "host_queue_lie requires text"@) {
            Err(e) => (store, Err(e)),
            Ok(text) => in_game(
                store,
                id,
                |g: GameView|
                    settled(
                        by_host(
                            g,
                            host,
                            Ok(
                                GameView {
                                    host_lie_queue: g.host_lie_queue.push(text),
                                    ..g
                                },
                            ),
                        ),
                        g,
                        |h: GameView|
                            ok_reply().with(
                                "host_lie_queue_len"@,
                                JsonView::Int(h.host_lie_queue.len() as int),
                            ),
                    ),
            ),
        },
    }
}

fn tool_host_queue_lie(store: &mut GameStore, args: &Json) -> (r: Result<Json, RpcError>)
    ensures
        (final(store)@, reply_of(r)) == lie_outcome(old(store)@, args@),
{
    let (id, host) = match read_host_request(args) {
        Ok(p) => p,
        Err(e) => return Err(e),
    };
    let text = match require_text(args, "host_queue_lie requires text") {
        Ok(s) => s,
        Err(e) => return Err(e),
    };
    match store.get_mut(id) {
        None => Err(unknown_game()),
        Some(game) => match tools::host_queue_lie(game, &host, text) {
            Ok(()) => Ok(
                Fields::new().put("ok", Json::Bool(true)).put(
                    "host_lie_queue_len",
                    Json::Uint(game.host_lie_queue.len() as u64),
                ).done(),
            ),
            Err(e) => Err(tool_err(e)),
        },
    }
}

/// What `host_decide` does.
pub open spec fn decide_outcome(store: GameStoreView, args: JsonView) -> (GameStoreView, Reply) {
    match host_request(args) {
        Err(e) => (store, Err(e)),
        Ok((id, host)) => match host_decision_in(args) {
            Err(e) => (store, Err(e)),
            Ok(decision) => in_game(
                store,
                id,
                |g: GameView|
                    settled(
                        by_host(g, host, g.host_decided(decision)),
                        g,
                        |h: GameView| phase_reply(h),
                    ),
            ),
        },
    }
}

fn tool_host_decide(store: &mut GameStore, args: &Json) -> (r: Result<Json, RpcError>)
    ensures
        (final(store)@, reply_of(r)) == decide_outcome(old(store)@, args@),
{
    let (id, host) = match read_host_request(args) {
        Ok(p) => p,
        Err(e) => return Err(e),
    };
    let decision = match parse_host_decision(args) {
        Ok(d) => d,
        Err(e) => return Err(e),
    };
    match store.get_mut(id) {
        None => Err(unknown_game()),
        Some(game) => match tools::host_decide(game, &host, decision) {
            Ok(()) => Ok(phase_json(game)),
            Err(e) => Err(tool_err(e)),
        },
    }
}

// ---------------------------------------------------------------------------
// Dispatch
// ---------------------------------------------------------------------------

/// What the tool of this name does to the store and answers.
pub open spec fn invokes(
    before: GameStoreView,
    name: Seq<char>,
    args: JsonView,
    sheet: Option<Seq<char>>,
    after: GameStoreView,
    reply: Reply,
) -> bool {
    if name == "create_game"@ {
        creates_game(before, args, after, reply)
    } else if name == "start_game"@ {
        (after, reply) == start_outcome(before, args)
    } else if name == "get_public_state"@ {
        after == before && reply == public_state_outcome(before, args)
    } else if name == "get_public_log"@ {
        after == before && reply == public_log_outcome(before, args)
    } else if name == "get_private_state"@ {
        after == before && answers_private_state(before, args, reply)
    } else if name == "get_character_rules"@ {
        after == before && reply == rules_outcome(args, sheet)
    } else if name == "get_host_state"@ {
        after == before && answers_host_state(before, args, reply)
    } else if name == "say"@ {
        (after, reply) == say_outcome(before, args)
    } else if name == "st_announce"@ {
        (after, reply) == announce_outcome(before, args)
    } else if name == "night_action"@ {
        (after, reply) == night_outcome(before, args)
    } else if name == "day_action"@ {
        (after, reply) == day_outcome(before, args)
    } else if name == "nominate"@ {
        (after, reply) == nominate_outcome(before, args)
    } else if name == "vote"@ {
        (after, reply) == vote_outcome(before, args)
    } else if name == "pass_vote"@ {
        (after, reply) == pass_outcome(before, args)
    } else if name == "open_nominations"@ {
        (after, reply) == open_outcome(before, args)
    } else if name == "close_vote"@ {
        (after, reply) == close_outcome(before, args)
    } else if name == "end_nominations"@ {
        (after, reply) == end_outcome(before, args)
    } else if name == "skip_night_action"@ {
        (after, reply) == skip_outcome(before, args)
    } else if name == "host_decide"@ {
        (after, reply) == decide_outcome(before, args)
    } else if name == "host_queue_lie"@ {
        (after, reply) == lie_outcome(before, args)
    } else {
        after == before && reply == Err::<JsonView, RpcErrorView>(
            RpcErrorView { code: -32601i64, message: "unknown tool: "@ + name },
        )
    }
}

/// Invoke a named tool. `sheet` is what the rules file of [`sheet_wanted`] holds.
pub fn invoke_tool(
    store: &mut GameStore,
    name: &str,
    args: &Json,
    sheet: Option<String>,
) -> (r: Result<
    Json,
    RpcError,
>)
    ensures
        invokes(
            old(store)@,
            name@,
            args@,
            crate::comms::opt_text(sheet),
            final(store)@,
            reply_of(r),
        ),
{
    if str_eq(name, "create_game") {
        tool_create_game(store, args)
    } else if str_eq(name, "start_game") {
        tool_start_game(store, args)
    } else if str_eq(name, "get_public_state") {
        tool_get_public_state(store, args)
    } else if str_eq(name, "get_public_log") {
        tool_get_public_log(store, args)
    } else if str_eq(name, "get_private_state") {
        tool_get_private_state(store, args)
    } else if str_eq(name, "get_character_rules") {
        tool_get_character_rules(args, sheet)
    } else if str_eq(name, "get_host_state") {
        tool_get_host_state(store, args)
    } else if str_eq(name, "say") {
        tool_say(store, args)
    } else if str_eq(name, "st_announce") {
        tool_st_announce(store, args)
    } else if str_eq(name, "night_action") {
        tool_night_action(store, args)
    } else if str_eq(name, "day_action") {
        tool_day_action(store, args)
    } else if str_eq(name, "nominate") {
        tool_nominate(store, args)
    } else if str_eq(name, "vote") {
        tool_vote(store, args)
    } else if str_eq(name, "pass_vote") {
        tool_pass_vote(store, args)
    } else if str_eq(name, "open_nominations") {
        tool_open_nominations(store, args)
    } else if str_eq(name, "close_vote") {
        tool_close_vote(store, args)
    } else if str_eq(name, "end_nominations") {
        tool_end_nominations(store, args)
    } else if str_eq(name, "skip_night_action") {
        tool_skip_night_action(store, args)
    } else if str_eq(name, "host_decide") {
        tool_host_decide(store, args)
    } else if str_eq(name, "host_queue_lie") {
        tool_host_queue_lie(store, args)
    } else {
        let mut message = "unknown tool: ".to_owned();
        message.append(name);
        Err(RpcError { code: -32601, message })
    }
}

/// A text part of a tool result.
pub open spec fn text_content(text: Seq<char>) -> JsonView {
    JsonView::Arr(
        seq![JsonView::object()
            .with("type"@, JsonView::Str("text"@))
            .with("text"@, JsonView::Str(text))],
    )
}

/// A tool reply in its MCP envelope: success with the structured content, an error of the tool as
/// a result marked as error, unreadable arguments as a protocol error.
pub open spec fn enveloped(reply: Reply) -> Reply {
    match reply {
        Ok(structured) => Ok(
            JsonView::object().with("content"@, text_content(json_text(structured))).with(
                "structuredContent"@,
                structured,
            ).with("isError"@, JsonView::Bool(false)),
        ),
        Err(e) => if e.code == -32602 {
            Err(e)
        } else {
            Ok(
                JsonView::object().with("content"@, text_content(e.message)).with(
                    "isError"@,
                    JsonView::Bool(true),
                ),
            )
        },
    }
}

fn text_json(text: &str) -> (j: Json)
    ensures
        j@ == text_content(text@),
{
    let mut v: Vec<Json> = Vec::new();
    v.push(
        Fields::new().put("type", Json::text("text")).put("text", Json::text(text)).done(),
    );
    assert(items_view(v@) =~= seq![
        JsonView::object().with("type"@, JsonView::Str("text"@)).with(
            "text"@,
            JsonView::Str(text@),
        ),
    ]);
    Json::array(v)
}

/// Put a tool reply into its MCP envelope.
pub fn envelope(reply: Result<Json, RpcError>) -> (r: Result<Json, RpcError>)
    ensures
        reply_of(r) == enveloped(reply_of(reply)),
{
    match reply {
        Ok(structured) => {
            let text = print(&structured);
            Ok(
                Fields::new().put("content", text_json(text.as_str())).put(
                    "structuredContent",
                    structured,
                ).put("isError", Json::Bool(false)).done(),
            )
        },
        Err(e) => {
            // Tool-level errors are returned as successful RPC with isError (MCP style),
            // except protocol/arg parse failures which stay as RPC errors.
            if e.code == -32602 {
                return Err(e);
            }
            Ok(
                Fields::new().put("content", text_json(e.message.as_str())).put(
                    "isError",
                    Json::Bool(true),
                ).done(),
            )
        },
    }
}

/// What calling a tool does and answers.
pub open spec fn calls(
    before: GameStoreView,
    name: Seq<char>,
    args: JsonView,
    sheet: Option<Seq<char>>,
    after: GameStoreView,
    reply: Reply,
) -> bool {
    exists|inner: Reply| #[trigger]
        invokes(before, name, args, sheet, after, inner) && reply == enveloped(inner)
}

/// Invoke a named tool; wraps success as MCP `content` + structured `structuredContent`.
pub fn call_tool(
    store: &mut GameStore,
    name: &str,
    args: &Json,
    sheet: Option<String>,
) -> (r: Result<
    Json,
    RpcError,
>)
    ensures
        calls(
            old(store)@,
            name@,
            args@,
            crate::comms::opt_text(sheet),
            final(store)@,
            reply_of(r),
        ),
{
    let inner = invoke_tool(store, name, args, sheet);
    assert(invokes(
        old(store)@,
        name@,
        args@,
        crate::comms::opt_text(sheet),
        store@,
        reply_of(inner),
    ));
    envelope(inner)
}

/// A tool reply for a caller that takes failure apart from success: the envelope, or the message
/// of the error.
pub open spec fn tool_outcome(inner: Reply) -> Result<JsonView, Seq<char>> {
    match inner {
        Ok(structured) => Ok(enveloped(inner)->Ok_0),
        Err(e) => Err(e.message),
    }
}

/// An outcome as it reads.
pub open spec fn outcome_of(r: Result<Json, String>) -> Result<JsonView, Seq<char>> {
    match r {
        Ok(j) => Ok(j@),
        Err(e) => Err(e@),
    }
}

/// What running a tool does to the store and comes to.
pub open spec fn runs(
    before: GameStoreView,
    name: Seq<char>,
    args: JsonView,
    sheet: Option<Seq<char>>,
    after: GameStoreView,
    outcome: Result<JsonView, Seq<char>>,
) -> bool {
    exists|inner: Reply| #[trigger]
        invokes(before, name, args, sheet, after, inner) && outcome == tool_outcome(inner)
}

/// Run a tool for a caller that takes failure apart from success: the MCP envelope of what a
/// successful call answers, or the message of the error.
pub fn invoke_named_tool(
    store: &mut GameStore,
    name: &str,
    args: &Json,
    sheet: Option<String>,
) -> (r:
    Result<Json, String>)
    ensures
        runs(
            old(store)@,
            name@,
            args@,
            crate::comms::opt_text(sheet),
            final(store)@,
            outcome_of(r),
        ),
{
    let inner = invoke_tool(store, name, args, sheet);
    assert(invokes(
        old(store)@,
        name@,
        args@,
        crate::comms::opt_text(sheet),
        store@,
        reply_of(inner),
    ));
    match inner {
        Ok(structured) => match envelope(Ok(structured)) {
            Ok(j) => Ok(j),
            Err(e) => Err(e.message),
        },
        Err(e) => Err(e.message),
    }
}

/// The answer to `initialize`.
pub open spec fn initialize_reply() -> JsonView {
    JsonView::object().with("protocolVersion"@, JsonView::Str("2024-11-05"@)).with(
        "capabilities"@,
        JsonView::object().with("tools"@, JsonView::object()),
    ).with(
        "serverInfo"@,
        JsonView::object().with("name"@, JsonView::Str("botc-mcp"@)).with(
            "version"@,
            JsonView::Str(SERVER_VERSION@),
        ),
    )
}

fn initialize_json() -> (j: Json)
    ensures
        j@ == initialize_reply(),
{
    Fields::new().put("protocolVersion", Json::text("2024-11-05")).put(
        "capabilities",
        Fields::new().put("tools", Fields::new().done()).done(),
    ).put(
        "serverInfo",
        Fields::new().put("name", Json::text("botc-mcp")).put(
            "version",
            Json::text(SERVER_VERSION),
        ).done(),
    ).done()
}

/// The value under a key, or another one where there is none.
pub open spec fn field_or(j: JsonView, key: Seq<char>, other: JsonView) -> JsonView {
    match j.field(key) {
        Some(v) => v,
        None => other,
    }
}

/// What a method does to the store and answers.
pub open spec fn dispatches(
    before: GameStoreView,
    method: Seq<char>,
    params: JsonView,
    sheet: Option<Seq<char>>,
    after: GameStoreView,
    reply: Reply,
) -> bool {
    if method == "initialize"@ {
        after == before && reply == Ok::<JsonView, RpcErrorView>(initialize_reply())
    } else if method == "notifications/initialized"@ || method == "initialized"@ {
        after == before && reply == Ok::<JsonView, RpcErrorView>(JsonView::Null)
    } else if method == "ping"@ {
        after == before && reply == Ok::<JsonView, RpcErrorView>(JsonView::object())
    } else if method == "tools/list"@ {
        after == before && reply == Ok::<JsonView, RpcErrorView>(
            JsonView::object().with("tools"@, JsonView::Arr(descriptors())),
        )
    } else if method == "tools/call"@ {
        match params.text_at("name"@) {
            None => after == before && reply == Err::<JsonView, RpcErrorView>(
                invalid("tools/call requires params.name"@),
            ),
            Some(name) => calls(
                before,
                name,
                field_or(params, "arguments"@, JsonView::object()),
                sheet,
                after,
                reply,
            ),
        }
    } else if names_a_tool(method) {
        calls(before, method, params, sheet, after, reply)
    } else {
        after == before && reply == Err::<JsonView, RpcErrorView>(
            RpcErrorView { code: -32601i64, message: "method not found: "@ + method },
        )
    }
}

/// Run one method.
pub fn dispatch_method(
    store: &mut GameStore,
    method: &str,
    params: &Json,
    sheet: Option<String>,
) -> (r:
    Result<Json, RpcError>)
    ensures
        dispatches(
            old(store)@,
            method@,
            params@,
            crate::comms::opt_text(sheet),
            final(store)@,
            reply_of(r),
        ),
{
    if str_eq(method, "initialize") {
        Ok(initialize_json())
    } else if str_eq(method, "notifications/initialized") || str_eq(method, "initialized") {
        Ok(Json::Null)
    } else if str_eq(method, "ping") {
        Ok(Fields::new().done())
    } else if str_eq(method, "tools/list") {
        Ok(Fields::new().put("tools", Json::array(list_tool_descriptors())).done())
    } else if str_eq(method, "tools/call") {
        match params.str_at("name") {
            None => Err(invalid_params("tools/call requires params.name")),
            Some(name) => match params.get("arguments") {
                Some(arguments) => call_tool(store, name, arguments, sheet),
                None => {
                    let arguments = Fields::new().done();
                    call_tool(store, name, &arguments, sheet)
                },
            },
        }
    } else if is_known_tool(method) {
        // Allow direct tool name as method (convenience / simple harnesses).
        call_tool(store, method, params, sheet)
    } else {
        let mut message = "method not found: ".to_owned();
        message.append(method);
        Err(RpcError { code: -32601, message })
    }
}

/// A JSON-RPC response.
pub open spec fn response(id: JsonView, reply: Reply) -> JsonView {
    let head = JsonView::object().with("jsonrpc"@, JsonView::Str("2.0"@)).with("id"@, id);
    match reply {
        Ok(value) => head.with("result"@, value),
        Err(e) => head.with(
            "error"@,
            JsonView::object().with("code"@, JsonView::Int(e.code as int)).with(
                "message"@,
                JsonView::Str(e.message),
            ),
        ),
    }
}

fn code_json(code: i64) -> (j: Json)
    ensures
        j@ == JsonView::Int(code as int),
{
    if code >= 0 { Json::Uint(code as u64) } else { Json::Neg(code) }
}

/// Build a JSON-RPC response.
pub fn response_json(id: Json, reply: Result<Json, RpcError>) -> (j: Json)
    ensures
        j@ == response(id@, reply_of(reply)),
{
    let head = Fields::new().put("jsonrpc", Json::text("2.0")).put("id", id);
    match reply {
        Ok(value) => head.put("result", value).done(),
        Err(e) => head.put(
            "error",
            Fields::new().put("code", code_json(e.code)).put(
                "message",
                Json::text(e.message.as_str()),
            ).done(),
        ).done(),
    }
}

/// The method of a request, empty where it names none.
pub open spec fn method_of(req: JsonView) -> Seq<char> {
    match req.text_at("method"@) {
        Some(m) => m,
        None => ""@,
    }
}

/// What a request does to the store and is answered; a notification does nothing and gets no
/// answer.
pub open spec fn responds(
    before: GameStoreView,
    req: JsonView,
    sheet: Option<Seq<char>>,
    after: GameStoreView,
    answer: Option<JsonView>,
) -> bool {
    match req.field("id"@) {
        None => after == before && answer is None,
        Some(id) => exists|reply: Reply| #[trigger]
            dispatches(
                before,
                method_of(req),
                field_or(req, "params"@, JsonView::Null),
                sheet,
                after,
                reply,
            ) && answer == Some(response(id, reply)),
    }
}

/// Answer one parsed request. `None` for notifications.
pub fn respond(store: &mut GameStore, req: &Json, sheet: Option<String>) -> (r: Option<Json>)
    ensures
        responds(
            old(store)@,
            req@,
            crate::comms::opt_text(sheet),
            final(store)@,
            match r {
                Some(j) => Some(j@),
                None => None,
            },
        ),
{
    // JSON-RPC notification: no id → no response.
    let id = match req.get("id") {
        Some(id) => id.clone(),
        None => return None,
    };
    let method = match req.str_at("method") {
        Some(m) => m,
        None => "",
    };
    let nothing = Json::Null;
    let params = match req.get("params") {
        Some(p) => p,
        None => &nothing,
    };
    let reply = dispatch_method(store, method, params, sheet);
    assert(dispatches(
        old(store)@,
        method_of(req@),
        field_or(req@, "params"@, JsonView::Null),
        crate::comms::opt_text(sheet),
        store@,
        reply_of(reply),
    ));
    Some(response_json(id, reply))
}

/// The answer to a line that is no JSON.
pub open spec fn parse_error_reply(complaint: Seq<char>) -> JsonView {
    response(
        JsonView::Null,
        Err(RpcErrorView { code: -32700i64, message: "parse error: "@ + complaint }),
    )
}

/// Handle one JSON-RPC request line. Returns `None` for notifications. `sheet` is what the rules
/// file of [`sheet_wanted`] holds.
pub fn handle_line(store: &mut GameStore, line: &str, sheet: Option<String>) -> (r: Option<String>)
    ensures
        match parse_outcome(line@) {
            Err(complaint) => final(store)@ == old(store)@ && (r matches Some(s) && s@ == json_text(
                parse_error_reply(complaint),
            )),
            Ok(req) => exists|answer: Option<JsonView>| #[trigger]
                responds(
                    old(store)@,
                    req,
                    crate::comms::opt_text(sheet),
                    final(store)@,
                    answer,
                ) && crate::comms::opt_text(r) == match answer {
                    Some(j) => Some(json_text(j)),
                    None => None,
                },
        },
{
    let req = match parse(line) {
        Ok(v) => v,
        Err(e) => {
            let mut message = "parse error: ".to_owned();
            message.append(e.as_str());
            let reply = response_json(Json::Null, Err(RpcError { code: -32700, message }));
            return Some(print(&reply));
        },
    };
    match respond(store, &req, sheet) {
        Some(reply) => Some(print(&reply)),
        None => None,
    }
}

/// The character whose rules file a tool call needs, if it asks for one.
pub open spec fn sheet_called_for(name: Seq<char>, args: JsonView) -> Option<Character> {
    if name == "get_character_rules"@ {
        match sheet_in(args) {
            Ok(c) => Some(c),
            Err(_) => None,
        }
    } else {
        None
    }
}

/// The character whose rules file a tool call needs, if it asks for one.
pub fn sheet_of_tool(name: &str, args: &Json) -> (r: Option<Character>)
    ensures
        r == sheet_called_for(name@, args@),
{
    if !str_eq(name, "get_character_rules") {
        return None;
    }
    match read_sheet_request(args) {
        Ok(c) => Some(c),
        Err(_) => None,
    }
}

/// The character whose rules file a request needs, if it asks for one.
pub open spec fn sheet_asked(req: JsonView) -> Option<Character> {
    let params = field_or(req, "params"@, JsonView::Null);
    let args = if method_of(req) == "tools/call"@ {
        if params.text_at("name"@) == Some("get_character_rules"@) {
            Some(field_or(params, "arguments"@, JsonView::object()))
        } else {
            None
        }
    } else if method_of(req) == "get_character_rules"@ {
        Some(params)
    } else {
        None
    };
    match args {
        Some(a) => match sheet_in(a) {
            Ok(c) => Some(c),
            Err(_) => None,
        },
        None => None,
    }
}

/// The character whose rules file a parsed request needs, if it asks for one.
pub fn sheet_of_request(req: &Json) -> (r: Option<Character>)
    ensures
        r == sheet_asked(req@),
{
    let nothing = Json::Null;
    let empty = Fields::new().done();
    let params = match req.get("params") {
        Some(p) => p,
        None => &nothing,
    };
    let method = match req.str_at("method") {
        Some(m) => m,
        None => "",
    };
    let args = if str_eq(method, "tools/call") {
        let asks = match params.str_at("name") {
            Some(n) => str_eq(n, "get_character_rules"),
            None => false,
        };
        if !asks {
            return None;
        }
        match params.get("arguments") {
            Some(a) => a,
            None => &empty,
        }
    } else if str_eq(method, "get_character_rules") {
        params
    } else {
        return None;
    };
    match read_sheet_request(args) {
        Ok(c) => Some(c),
        Err(_) => None,
    }
}

/// The character whose rules file a request line needs, if it asks for one.
pub fn sheet_wanted(line: &str) -> (r: Option<Character>)
    ensures
        r == match parse_outcome(line@) {
            Ok(req) => sheet_asked(req),
            Err(_) => None,
        },
{
    match parse(line) {
        Ok(req) => sheet_of_request(&req),
        Err(_) => None,
    }
}

// ---------------------------------------------------------------------------
// Laws
// ---------------------------------------------------------------------------

/// Reading changes nothing: the views, the rules and the listings leave every game as it was.
pub proof fn reading_changes_nothing(
    before: GameStoreView,
    name: Seq<char>,
    args: JsonView,
    sheet: Option<Seq<char>>,
    after: GameStoreView,
    reply: Reply,
)
    requires
        invokes(before, name, args, sheet, after, reply),
        name == "get_public_state"@ || name == "get_public_log"@ || name == "get_private_state"@
            || name == "get_character_rules"@ || name == "get_host_state"@,
    ensures
        after == before,
{
    reveal_strlit("create_game");
    reveal_strlit("start_game");
    reveal_strlit("get_public_state");
    reveal_strlit("get_public_log");
    reveal_strlit("get_private_state");
    reveal_strlit("get_character_rules");
    reveal_strlit("get_host_state");
    assert("create_game"@.len() == 11 && "start_game"@.len() == 10);
    assert(name.len() >= 14);
}

/// A notification is not answered and changes nothing.
pub proof fn notifications_are_silent(
    before: GameStoreView,
    req: JsonView,
    sheet: Option<Seq<char>>,
    after: GameStoreView,
    answer: Option<JsonView>,
)
    requires
        responds(before, req, sheet, after, answer),
        req.field("id"@) is None,
    ensures
        answer is None,
        after == before,
{
}

/// A request with an id is answered, and the answer carries that id.
pub proof fn requests_are_answered(
    before: GameStoreView,
    req: JsonView,
    sheet: Option<Seq<char>>,
    after: GameStoreView,
    answer: Option<JsonView>,
    id: JsonView,
)
    requires
        responds(before, req, sheet, after, answer),
        req.field("id"@) == Some(id),
    ensures
        answer matches Some(j) && j.field("id"@) == Some(id),
{
    let reply = choose|reply: Reply| #[trigger]
        dispatches(
            before,
            method_of(req),
            field_or(req, "params"@, JsonView::Null),
            sheet,
            after,
            reply,
        ) && answer == Some(response(id, reply));
    reveal_strlit("id");
    reveal_strlit("jsonrpc");
    let head = JsonView::object().with("jsonrpc"@, JsonView::Str("2.0"@)).with("id"@, id);
    let fields = match response(id, reply) {
        JsonView::Obj(f) => f,
        _ => seq![],
    };
    assert(fields[0].0 == "jsonrpc"@);
    assert(fields[1] == ("id"@, id));
    assert("jsonrpc"@.len() != "id"@.len());
    assert(fields.drop_first()[0] == fields[1]);
    reveal_with_fuel(crate::json::first_under, 3);
}

} // verus!
