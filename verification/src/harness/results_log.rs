//! Ranking-relevant game outcomes as JSON records, one object per line.
//!
//! Separate from the verbose debug log: this is a durable, machine-readable corpus for a
//! model ranking system. Writing the lines is left to the caller.
//!
//! Schema version is the `v` field on every record.
//!
//! ## Events (`event` field)
//!
//! | event | When | Ranking relevance |
//! | --- | --- | --- |
//! | `game_start` | After launch / start_game | Models ↔ seats, true roles, seed |
//! | `death` | Seat dies (exec / night / day ability) | Survival, who killed whom |
//! | `nomination` | A nomination opens | Social targeting metrics later |
//! | `game_end` | Engine reaches Ended | Team win + per-seat outcome |
//! | `game_abort` | Quit mid-game | Incomplete run filtering |
//! | `tick_usage` | A headless run reports `usage` | Token spend / context growth |
//!
//! Chat / tool spam is intentionally **not** logged here.

use crate::comms::{EventId, PublicEvent, PublicEventView, PublicLogView};
use crate::game::ids::SeatId;
use crate::game::phase::{
    reason_name, reason_word, stage_name, stage_word, winner_name, winner_word, EndReason, Phase,
    Winner,
};
use crate::game::seat::{find_seat, seat_of, Seat};
use crate::game::state::{Game, GameView};
use crate::harness::agents::{agents_view, AgentConfig, AgentConfigView, AgentRole, TickUsage};
use crate::harness::stream::{AgentUsage, ContextWindow};
use crate::json::{items_view, Fields, Json, JsonView};
use crate::roles::data::name_of;
use crate::roles::{team_of, type_of, Character};
use crate::tools::rules_docs::{team_label, team_word, type_label, type_word};
use vstd::prelude::*;
use vstd::string::*;

verus! {

/// Schema version stamped on every line.
pub const SCHEMA_VERSION: u32 = 1;

/// File name of the corpus where no other is asked for.
pub const RESULTS_FILE: &'static str = "botc-results.jsonl";

/// The run id for lines of a run that has none.
pub fn run_id_or_unknown(run_id: &str) -> (s: String)
    ensures
        s@ == (if run_id@.len() == 0 { "unknown"@ } else { run_id@ }),
{
    if crate::text::chars_of(run_id).len() == 0 {
        "unknown".to_owned()
    } else {
        run_id.to_owned()
    }
}

// ---------------------------------------------------------------------------
// Parts
// ---------------------------------------------------------------------------

/// A number or nothing.
pub open spec fn number_or_null(n: Option<u32>) -> JsonView {
    match n {
        Some(x) => JsonView::Int(x as int),
        None => JsonView::Null,
    }
}

/// The spend of a run.
pub open spec fn usage_record(t: TickUsage) -> JsonView {
    JsonView::object().with("input_tokens"@, JsonView::Int(t.input_tokens as int)).with(
        "cache_read_input_tokens"@,
        JsonView::Int(t.cache_read_input_tokens as int),
    ).with("output_tokens"@, JsonView::Int(t.output_tokens as int)).with(
        "reasoning_tokens"@,
        JsonView::Int(t.reasoning_tokens as int),
    ).with("total_tokens"@, JsonView::Int(t.total_tokens as int)).with(
        "num_turns"@,
        number_or_null(t.num_turns),
    )
}

fn tick_usage_json(t: &TickUsage) -> (j: Json)
    ensures
        j@ == usage_record(*t),
{
    Fields::new().put("input_tokens", Json::Uint(t.input_tokens)).put(
        "cache_read_input_tokens",
        Json::Uint(t.cache_read_input_tokens),
    ).put("output_tokens", Json::Uint(t.output_tokens)).put(
        "reasoning_tokens",
        Json::Uint(t.reasoning_tokens),
    ).put("total_tokens", Json::Uint(t.total_tokens)).put(
        "num_turns",
        match t.num_turns {
            Some(n) => Json::Uint(n as u64),
            None => Json::Null,
        },
    ).done()
}

/// The fill of a context window, or nothing.
pub open spec fn context_record(c: Option<ContextWindow>) -> JsonView {
    match c {
        Some(w) => JsonView::object()
            .with("tokens_used"@, JsonView::Int(w.tokens_used as int))
            .with(
            "window_tokens"@,
            JsonView::Int(w.window_tokens as int),
        ).with("usage_pct"@, JsonView::Int(w.usage_pct as int)),
        None => JsonView::Null,
    }
}

fn context_json(c: &Option<ContextWindow>) -> (j: Json)
    ensures
        j@ == context_record(*c),
{
    match c {
        Some(w) => Fields::new().put("tokens_used", Json::Uint(w.tokens_used)).put(
            "window_tokens",
            Json::Uint(w.window_tokens),
        ).put("usage_pct", Json::Uint(w.usage_pct as u64)).done(),
        None => Json::Null,
    }
}

/// The usage of one agent.
pub open spec fn agent_usage_record(label: Seq<char>, u: AgentUsage) -> JsonView {
    JsonView::object().with("agent"@, JsonView::Str(label)).with(
        "ticks_with_usage"@,
        JsonView::Int(u.ticks_with_usage as int),
    ).with(
        "last_tick"@,
        match u.last_tick {
            Some(t) => usage_record(t),
            None => JsonView::Null,
        },
    ).with("game_total"@, usage_record(u.game_total)).with("context"@, context_record(u.context))
}

/// The usage of every agent.
pub open spec fn usage_records(entries: Seq<(String, AgentUsage)>) -> Seq<JsonView> {
    entries.map_values(|e: (String, AgentUsage)| agent_usage_record(e.0@, e.1))
}

/// Usage snapshot for `game_end` / `game_abort` (agent label → usage).
pub fn usage_snapshot_json(entries: &Vec<(String, AgentUsage)>) -> (v: Vec<Json>)
    ensures
        items_view(v@) == usage_records(entries@),
{
    let mut v: Vec<Json> = Vec::new();
    let mut i: usize = 0;
    while i < entries.len()
        invariant
            i <= entries@.len(),
            v@.len() == i,
            forall|k: int|
                0 <= k < i ==> (#[trigger] v@[k])@ == agent_usage_record(
                    entries@[k].0@,
                    entries@[k].1,
                ),
        decreases entries@.len() - i,
    {
        let u = &entries[i].1;
        let record = Fields::new().put("agent", Json::text(entries[i].0.as_str())).put(
            "ticks_with_usage",
            Json::Uint(u.ticks_with_usage as u64),
        ).put(
            "last_tick",
            match &u.last_tick {
                Some(t) => tick_usage_json(t),
                None => Json::Null,
            },
        ).put("game_total", tick_usage_json(&u.game_total)).put(
            "context",
            context_json(&u.context),
        ).done();
        v.push(record);
        i += 1;
    }
    assert(items_view(v@) =~= usage_records(entries@));
    v
}

/// The model of the first agent in a role, empty where there is none.
pub open spec fn model_in_role(agents: Seq<AgentConfigView>, role: AgentRole) -> Seq<char>
    decreases agents.len(),
{
    if agents.len() == 0 {
        ""@
    } else if agents[0].role == role {
        agents[0].model
    } else {
        model_in_role(agents.drop_first(), role)
    }
}

/// The backend of the first agent in a role; agents run on the default backend unless they say
/// otherwise.
pub open spec fn backend_in_role(agents: Seq<AgentConfigView>, role: AgentRole) -> Seq<char>
    decreases agents.len(),
{
    if agents.len() == 0 {
        "grok"@
    } else if agents[0].role == role {
        agents[0].backend.word()
    } else {
        backend_in_role(agents.drop_first(), role)
    }
}

/// The position of the first agent in a role.
fn agent_in_role(agents: &Vec<AgentConfig>, role: AgentRole) -> (r: Option<usize>)
    ensures
        match r {
            Some(i) => i < agents@.len() && model_in_role(agents_view(agents@), role)
                == agents@[i as int].model@ && backend_in_role(agents_view(agents@), role)
                == agents@[i as int].backend.word(),
            None => model_in_role(agents_view(agents@), role) == ""@ && backend_in_role(
                agents_view(agents@),
                role,
            ) == "grok"@,
        },
{
    let ghost all = agents_view(agents@);
    let mut i: usize = 0;
    assert(all.skip(0) =~= all);
    while i < agents.len()
        invariant
            i <= agents@.len(),
            all == agents_view(agents@),
            model_in_role(all, role) == model_in_role(all.skip(i as int), role),
            backend_in_role(all, role) == backend_in_role(all.skip(i as int), role),
        decreases agents@.len() - i,
    {
        assert(all.skip(i as int)[0] == agents@[i as int]@);
        assert(all.skip(i as int).drop_first() =~= all.skip(i + 1));
        if agents[i].role == role {
            return Some(i);
        }
        i += 1;
    }
    None
}

fn model_of(agents: &Vec<AgentConfig>, role: AgentRole) -> (s: String)
    ensures
        s@ == model_in_role(agents_view(agents@), role),
{
    match agent_in_role(agents, role) {
        Some(i) => agents[i].model.clone(),
        None => "".to_owned(),
    }
}

fn backend_of(agents: &Vec<AgentConfig>, role: AgentRole) -> (s: String)
    ensures
        s@ == backend_in_role(agents_view(agents@), role),
{
    match agent_in_role(agents, role) {
        Some(i) => agents[i].backend.as_str().to_owned(),
        None => "grok".to_owned(),
    }
}

/// The name of a character, or nothing.
pub open spec fn character_record(c: Option<Character>) -> JsonView {
    match c {
        Some(x) => JsonView::Str(name_of(x)),
        None => JsonView::Null,
    }
}

/// The team of a character, or nothing.
pub open spec fn team_record(c: Option<Character>) -> JsonView {
    match c {
        Some(x) => JsonView::Str(team_word(team_of(x))),
        None => JsonView::Null,
    }
}

/// The type of a character, or nothing.
pub open spec fn type_record(c: Option<Character>) -> JsonView {
    match c {
        Some(x) => JsonView::Str(type_word(type_of(x))),
        None => JsonView::Null,
    }
}

fn character_json(c: Option<Character>) -> (j: Json)
    ensures
        j@ == character_record(c),
{
    match c {
        Some(x) => Json::text(x.display_name()),
        None => Json::Null,
    }
}

fn team_json(c: Option<Character>) -> (j: Json)
    ensures
        j@ == team_record(c),
{
    match c {
        Some(x) => Json::text(team_label(x.team())),
        None => Json::Null,
    }
}

fn type_json(c: Option<Character>) -> (j: Json)
    ensures
        j@ == type_record(c),
{
    match c {
        Some(x) => Json::text(type_label(x.character_type())),
        None => Json::Null,
    }
}

/// One seat of the roster.
pub open spec fn seat_record(s: Seat, agents: Seq<AgentConfigView>) -> JsonView {
    let role = AgentRole::Player { seat: s.id };
    let believed = match s.believed_character {
        Some(c) => Some(c),
        None => s.true_character,
    };
    JsonView::object().with("seat"@, JsonView::Int(s.id.0 as int)).with(
        "name"@,
        JsonView::Str(s.display_name@),
    ).with("model"@, JsonView::Str(model_in_role(agents, role))).with(
        "backend"@,
        JsonView::Str(backend_in_role(agents, role)),
    ).with("true_character"@, character_record(s.true_character)).with(
        "believed_character"@,
        character_record(believed),
    ).with("team"@, team_record(s.true_character)).with(
        "character_type"@,
        type_record(s.true_character),
    ).with("alive"@, JsonView::Bool(s.alive)).with(
        "is_drunk_outsider"@,
        JsonView::Bool(s.is_drunk_outsider),
    )
}

fn seat_fields(s: &Seat, agents: &Vec<AgentConfig>) -> (f: Fields)
    ensures
        f@ == seat_record(*s, agents_view(agents@)),
{
    let role = AgentRole::Player { seat: s.id };
    let believed = match s.believed_character {
        Some(c) => Some(c),
        None => s.true_character,
    };
    Fields::new().put("seat", Json::Uint(s.id.0 as u64)).put(
        "name",
        Json::text(s.display_name.as_str()),
    ).put("model", Json::text(model_of(agents, role).as_str())).put(
        "backend",
        Json::text(backend_of(agents, role).as_str()),
    ).put("true_character", character_json(s.true_character)).put(
        "believed_character",
        character_json(believed),
    ).put("team", team_json(s.true_character)).put(
        "character_type",
        type_json(s.true_character),
    ).put("alive", Json::Bool(s.alive)).put(
        "is_drunk_outsider",
        Json::Bool(s.is_drunk_outsider),
    )
}

/// The seat roster.
pub open spec fn roster_records(g: GameView, agents: Seq<AgentConfigView>) -> Seq<JsonView> {
    g.seats.map_values(|s: Seat| seat_record(s, agents))
}

/// Build the ranking-facing seat roster from the live grimoire + agent models.
pub fn seats_snapshot(game: &Game, agents: &Vec<AgentConfig>) -> (v: Vec<Json>)
    ensures
        items_view(v@) == roster_records(game@, agents_view(agents@)),
{
    let mut v: Vec<Json> = Vec::new();
    let mut i: usize = 0;
    while i < game.seats.len()
        invariant
            i <= game.seats@.len(),
            v@.len() == i,
            forall|k: int|
                0 <= k < i ==> (#[trigger] v@[k])@ == seat_record(
                    game.seats@[k],
                    agents_view(agents@),
                ),
        decreases game.seats@.len() - i,
    {
        v.push(seat_fields(&game.seats[i], agents).done());
        i += 1;
    }
    assert(items_view(v@) =~= roster_records(game@, agents_view(agents@)));
    v
}

/// The phase of a game.
pub open spec fn phase_record(phase: Phase) -> JsonView {
    match phase {
        Phase::Lobby => JsonView::object().with("kind"@, JsonView::Str("lobby"@)),
        Phase::FirstNight { .. } => JsonView::object().with("kind"@, JsonView::Str("night"@)).with(
            "night"@,
            JsonView::Int(1),
        ),
        Phase::Night { night, .. } => JsonView::object().with(
            "kind"@,
            JsonView::Str("night"@),
        ).with("night"@, JsonView::Int(night as int)),
        Phase::Day { day, stage } => JsonView::object().with("kind"@, JsonView::Str("day"@)).with(
            "day"@,
            JsonView::Int(day as int),
        ).with("stage"@, JsonView::Str(stage_word(stage))),
        Phase::Ended { winner, reason } => JsonView::object().with(
            "kind"@,
            JsonView::Str("ended"@),
        ).with("winner"@, JsonView::Str(winner_word(winner))).with(
            "reason"@,
            JsonView::Str(reason_word(reason)),
        ),
    }
}

fn phase_fields(phase: &Phase) -> (j: Json)
    ensures
        j@ == phase_record(*phase),
{
    match phase {
        Phase::Lobby => Fields::new().put("kind", Json::text("lobby")).done(),
        Phase::FirstNight { .. } => Fields::new().put("kind", Json::text("night")).put(
            "night",
            Json::Uint(1),
        ).done(),
        Phase::Night { night, .. } => Fields::new().put("kind", Json::text("night")).put(
            "night",
            Json::Uint(*night as u64),
        ).done(),
        Phase::Day { day, stage } => Fields::new().put("kind", Json::text("day")).put(
            "day",
            Json::Uint(*day as u64),
        ).put("stage", Json::text(stage_name(*stage))).done(),
        Phase::Ended { winner, reason } => Fields::new().put("kind", Json::text("ended")).put(
            "winner",
            Json::text(winner_name(*winner)),
        ).put("reason", Json::text(reason_name(*reason))).done(),
    }
}

/// The true character at a seat.
pub open spec fn character_at(g: GameView, seat: SeatId) -> Option<Character> {
    match seat_of(g.seats, seat) {
        Some(s) => s.true_character,
        None => None,
    }
}

fn true_character_at(game: &Game, seat: SeatId) -> (c: Option<Character>)
    ensures
        c == character_at(game@, seat),
{
    match find_seat(&game.seats, seat) {
        Some(i) => game.seats[i].true_character,
        None => None,
    }
}

// ---------------------------------------------------------------------------
// Records
// ---------------------------------------------------------------------------

/// The head of every record.
pub open spec fn head_record(event: Seq<char>, run_id: Seq<char>, game_id: u64) -> JsonView {
    JsonView::object().with("event"@, JsonView::Str(event)).with(
        "run_id"@,
        JsonView::Str(run_id),
    ).with("game_id"@, JsonView::Int(game_id as int))
}

fn head(event: &str, run_id: &str, game_id: u64) -> (f: Fields)
    ensures
        f@ == head_record(event@, run_id@, game_id),
{
    Fields::new().put("event", Json::text(event)).put("run_id", Json::text(run_id)).put(
        "game_id",
        Json::Uint(game_id),
    )
}

/// `tick_usage` — one headless run's spend (from streaming-json `end.usage`).
pub fn log_tick_usage(
    run_id: &str,
    game_id: u64,
    agent: &str,
    model: &str,
    tick: &TickUsage,
    context: &Option<ContextWindow>,
    cumulative: &TickUsage,
    ticks_with_usage: u32,
) -> (j: Json)
    ensures
        j@ == head_record("tick_usage"@, run_id@, game_id).with(
            "agent"@,
            JsonView::Str(agent@),
        ).with("model"@, JsonView::Str(model@)).with("tick"@, usage_record(*tick)).with(
            "cumulative"@,
            usage_record(*cumulative),
        ).with("ticks_with_usage"@, JsonView::Int(ticks_with_usage as int)).with(
            "context"@,
            context_record(*context),
        ),
{
    head("tick_usage", run_id, game_id).put("agent", Json::text(agent)).put(
        "model",
        Json::text(model),
    ).put("tick", tick_usage_json(tick)).put("cumulative", tick_usage_json(cumulative)).put(
        "ticks_with_usage",
        Json::Uint(ticks_with_usage as u64),
    ).put("context", context_json(context)).done()
}

/// A `game_start` record.
pub open spec fn start_record(
    run_id: Seq<char>,
    game_id: u64,
    g: GameView,
    agents: Seq<AgentConfigView>,
    seed: u64,
    st_choice_mode: Seq<char>,
) -> JsonView {
    head_record("game_start"@, run_id, game_id).with("seed"@, JsonView::Int(seed as int)).with(
        "player_count"@,
        JsonView::Int(g.seats.len() as int),
    ).with("st_choice_mode"@, JsonView::Str(st_choice_mode)).with(
        "host"@,
        JsonView::object().with(
            "model"@,
            JsonView::Str(model_in_role(agents, AgentRole::Host)),
        ).with("display_name"@, JsonView::Str("Storyteller"@)),
    ).with("seats"@, JsonView::Arr(roster_records(g, agents))).with("phase"@, phase_record(g.phase))
}

/// `game_start` — full assignment for ranking join keys.
pub fn log_game_start(
    run_id: &str,
    game_id: u64,
    game: &Game,
    agents: &Vec<AgentConfig>,
    seed: u64,
    st_choice_mode: &str,
) -> (j: Json)
    ensures
        j@ == start_record(
            run_id@,
            game_id,
            game@,
            agents_view(agents@),
            seed,
            st_choice_mode@,
        ),
{
    let host = Fields::new().put(
        "model",
        Json::text(model_of(agents, AgentRole::Host).as_str()),
    ).put("display_name", Json::text("Storyteller")).done();
    head("game_start", run_id, game_id).put("seed", Json::Uint(seed)).put(
        "player_count",
        Json::Uint(game.seats.len() as u64),
    ).put("st_choice_mode", Json::text(st_choice_mode)).put("host", host).put(
        "seats",
        Json::array(seats_snapshot(game, agents)),
    ).put("phase", phase_fields(&game.phase)).done()
}

/// A `death` record.
pub open spec fn death_record(
    run_id: Seq<char>,
    game_id: u64,
    g: GameView,
    agents: Seq<AgentConfigView>,
    seat: SeatId,
    cause: Seq<char>,
) -> JsonView {
    head_record("death"@, run_id, game_id).with("seat"@, JsonView::Int(seat.0 as int)).with(
        "cause"@,
        JsonView::Str(cause),
    ).with("model"@, JsonView::Str(model_in_role(agents, AgentRole::Player { seat }))).with(
        "true_character"@,
        character_record(character_at(g, seat)),
    ).with("team"@, team_record(character_at(g, seat))).with("phase"@, phase_record(g.phase))
}

fn death_json(
    run_id: &str,
    game_id: u64,
    game: &Game,
    agents: &Vec<AgentConfig>,
    seat: SeatId,
    cause: &str,
) -> (j: Json)
    ensures
        j@ == death_record(run_id@, game_id, game@, agents_view(agents@), seat, cause@),
{
    let c = true_character_at(game, seat);
    head("death", run_id, game_id).put("seat", Json::Uint(seat.0 as u64)).put(
        "cause",
        Json::text(cause),
    ).put("model", Json::text(model_of(agents, AgentRole::Player { seat }).as_str())).put(
        "true_character",
        character_json(c),
    ).put("team", team_json(c)).put("phase", phase_fields(&game.phase)).done()
}

/// The `death` records that a public event stands for.
pub open spec fn death_records(
    run_id: Seq<char>,
    game_id: u64,
    g: GameView,
    agents: Seq<AgentConfigView>,
    ev: PublicEventView,
) -> Seq<JsonView> {
    match ev {
        PublicEventView::Executed { seat } => seq![
            death_record(run_id, game_id, g, agents, seat, "executed"@),
        ],
        PublicEventView::DiedInNight { seats } => seats.map_values(
            |seat: SeatId| death_record(run_id, game_id, g, agents, seat, "night"@),
        ),
        PublicEventView::PlayerDied { seat } => seq![
            death_record(run_id, game_id, g, agents, seat, "day"@),
        ],
        _ => seq![],
    }
}

/// Map a public death-related event into ranking `death` records (if applicable).
///
/// `PlayerDied` also fires after `Executed`; see [`drain_public_events`].
#[verifier::loop_isolation(false)]
pub fn death_records_from_public(
    run_id: &str,
    game_id: u64,
    game: &Game,
    agents: &Vec<AgentConfig>,
    ev: &PublicEvent,
) -> (v: Vec<Json>)
    ensures
        items_view(v@) == death_records(run_id@, game_id, game@, agents_view(agents@), ev@),
{
    let ghost wanted = death_records(run_id@, game_id, game@, agents_view(agents@), ev@);
    let mut v: Vec<Json> = Vec::new();
    match ev {
        PublicEvent::Executed { seat } => {
            v.push(death_json(run_id, game_id, game, agents, *seat, "executed"));
        },
        PublicEvent::DiedInNight { seats } => {
            let mut i: usize = 0;
            while i < seats.len()
                invariant
                    i <= seats@.len(),
                    v@.len() == i,
                    forall|k: int|
                        0 <= k < i ==> (#[trigger] v@[k])@ == death_record(
                            run_id@,
                            game_id,
                            game@,
                            agents_view(agents@),
                            seats@[k],
                            "night"@,
                        ),
                decreases seats@.len() - i,
            {
                v.push(death_json(run_id, game_id, game, agents, seats[i], "night"));
                i += 1;
            }
        },
        PublicEvent::PlayerDied { seat } => {
            v.push(death_json(run_id, game_id, game, agents, *seat, "day"));
        },
        _ => {},
    }
    assert(items_view(v@) =~= wanted);
    v
}

/// A `nomination` record.
pub open spec fn nomination_record(
    run_id: Seq<char>,
    game_id: u64,
    g: GameView,
    agents: Seq<AgentConfigView>,
    by: SeatId,
    target: SeatId,
) -> JsonView {
    head_record("nomination"@, run_id, game_id).with("by_seat"@, JsonView::Int(by.0 as int)).with(
        "target_seat"@,
        JsonView::Int(target.0 as int),
    ).with(
        "by_model"@,
        JsonView::Str(model_in_role(agents, AgentRole::Player { seat: by })),
    ).with(
        "target_model"@,
        JsonView::Str(model_in_role(agents, AgentRole::Player { seat: target })),
    ).with("by_team"@, team_record(character_at(g, by))).with(
        "target_team"@,
        team_record(character_at(g, target)),
    ).with("phase"@, phase_record(g.phase))
}

/// `nomination` — who put whom on the block (for future social metrics).
pub fn log_nomination_if_any(
    run_id: &str,
    game_id: u64,
    game: &Game,
    agents: &Vec<AgentConfig>,
    ev: &PublicEvent,
) -> (r: Option<Json>)
    ensures
        match r {
            Some(j) => ev@ matches PublicEventView::Nominated { by, target } && j@
                == nomination_record(run_id@, game_id, game@, agents_view(agents@), by, target),
            None => !(ev@ is Nominated),
        },
{
    match ev {
        PublicEvent::Nominated { by, target } => Some(
            head("nomination", run_id, game_id).put("by_seat", Json::Uint(by.0 as u64)).put(
                "target_seat",
                Json::Uint(target.0 as u64),
            ).put(
                "by_model",
                Json::text(model_of(agents, AgentRole::Player { seat: *by }).as_str()),
            ).put(
                "target_model",
                Json::text(model_of(agents, AgentRole::Player { seat: *target }).as_str()),
            ).put("by_team", team_json(true_character_at(game, *by))).put(
                "target_team",
                team_json(true_character_at(game, *target)),
            ).put("phase", phase_fields(&game.phase)).done(),
        ),
        _ => None,
    }
}

/// Whether a character's team is the winner's.
pub open spec fn won(c: Option<Character>, winner: Winner) -> bool {
    c matches Some(x) && team_word(team_of(x)) == winner_word(winner)
}

/// The roster with a win flag per seat.
pub open spec fn scored_roster(g: GameView, agents: Seq<AgentConfigView>, winner: Winner) -> Seq<
    JsonView,
> {
    g.seats.map_values(
        |s: Seat|
            seat_record(s, agents).with("won"@, JsonView::Bool(won(s.true_character, winner))),
    )
}

fn scored_seats(game: &Game, agents: &Vec<AgentConfig>, winner: Winner) -> (v: Vec<Json>)
    ensures
        items_view(v@) == scored_roster(game@, agents_view(agents@), winner),
{
    let mut v: Vec<Json> = Vec::new();
    let mut i: usize = 0;
    while i < game.seats.len()
        invariant
            i <= game.seats@.len(),
            v@.len() == i,
            forall|k: int|
                0 <= k < i ==> (#[trigger] v@[k])@ == seat_record(
                    game.seats@[k],
                    agents_view(agents@),
                ).with("won"@, JsonView::Bool(won(game.seats@[k].true_character, winner))),
        decreases game.seats@.len() - i,
    {
        let s = &game.seats[i];
        let won = match s.true_character {
            Some(c) => crate::text::str_eq(team_label(c.team()), winner_name(winner)),
            None => false,
        };
        v.push(seat_fields(s, agents).put("won", Json::Bool(won)).done());
        i += 1;
    }
    assert(items_view(v@) =~= scored_roster(game@, agents_view(agents@), winner));
    v
}

/// The `host` part of the closing records.
pub open spec fn host_record(agents: Seq<AgentConfigView>) -> JsonView {
    JsonView::object().with("model"@, JsonView::Str(model_in_role(agents, AgentRole::Host)))
}

fn host_json(agents: &Vec<AgentConfig>) -> (j: Json)
    ensures
        j@ == host_record(agents_view(agents@)),
{
    Fields::new().put("model", Json::text(model_of(agents, AgentRole::Host).as_str())).done()
}

/// A `game_end` record.
pub open spec fn end_record(
    run_id: Seq<char>,
    game_id: u64,
    g: GameView,
    agents: Seq<AgentConfigView>,
    usage: Seq<(String, AgentUsage)>,
    winner: Winner,
    reason: EndReason,
) -> JsonView {
    head_record("game_end"@, run_id, game_id).with(
        "winner"@,
        JsonView::Str(winner_word(winner)),
    ).with("reason"@, JsonView::Str(reason_word(reason))).with("host"@, host_record(agents)).with(
        "seats"@,
        JsonView::Arr(scored_roster(g, agents, winner)),
    ).with("usage"@, JsonView::Arr(usage_records(usage))).with("phase"@, phase_record(g.phase))
}

/// `game_end` — terminal outcome + per-seat win flags for ranking; nothing for a game that has
/// not ended.
pub fn log_game_end(
    run_id: &str,
    game_id: u64,
    game: &Game,
    agents: &Vec<AgentConfig>,
    usage: &Vec<(String, AgentUsage)>,
) -> (r: Option<Json>)
    ensures
        match r {
            Some(j) => game@.phase matches Phase::Ended { winner, reason } && j@ == end_record(
                run_id@,
                game_id,
                game@,
                agents_view(agents@),
                usage@,
                winner,
                reason,
            ),
            None => !(game@.phase is Ended),
        },
{
    match &game.phase {
        Phase::Ended { winner, reason } => Some(
            head("game_end", run_id, game_id).put(
                "winner",
                Json::text(winner_name(*winner)),
            ).put("reason", Json::text(reason_name(*reason))).put("host", host_json(agents)).put(
                "seats",
                Json::array(scored_seats(game, agents, *winner)),
            ).put("usage", Json::array(usage_snapshot_json(usage))).put(
                "phase",
                phase_fields(&game.phase),
            ).done(),
        ),
        _ => None,
    }
}

/// A `game_abort` record: with the roster and the phase of the game, if it can be seen.
pub open spec fn abort_record(
    run_id: Seq<char>,
    game_id: u64,
    g: Option<GameView>,
    agents: Seq<AgentConfigView>,
    why: Seq<char>,
    usage: Seq<(String, AgentUsage)>,
) -> JsonView {
    head_record("game_abort"@, run_id, game_id).with("why"@, JsonView::Str(why)).with(
        "host"@,
        host_record(agents),
    ).with(
        "seats"@,
        JsonView::Arr(
            match g {
                Some(g) => roster_records(g, agents),
                None => seq![],
            },
        ),
    ).with("usage"@, JsonView::Arr(usage_records(usage))).with(
        "phase"@,
        match g {
            Some(g) => phase_record(g.phase),
            None => JsonView::object().with("kind"@, JsonView::Str("unknown"@)),
        },
    )
}

/// `game_abort` — quit (or crash path) before a clean Ended phase.
pub fn log_game_abort(
    run_id: &str,
    game_id: u64,
    game: Option<&Game>,
    agents: &Vec<AgentConfig>,
    why: &str,
    usage: &Vec<(String, AgentUsage)>,
) -> (j: Json)
    ensures
        j@ == abort_record(
            run_id@,
            game_id,
            match game {
                Some(g) => Some(g@),
                None => None,
            },
            agents_view(agents@),
            why@,
            usage@,
        ),
{
    let seats = match game {
        Some(g) => seats_snapshot(g, agents),
        None => Vec::new(),
    };
    assert(game is None ==> items_view(seats@) =~= seq![]);
    let phase = match game {
        Some(g) => phase_fields(&g.phase),
        None => Fields::new().put("kind", Json::text("unknown")).done(),
    };
    head("game_abort", run_id, game_id).put("why", Json::text(why)).put(
        "host",
        host_json(agents),
    ).put("seats", Json::array(seats)).put(
        "usage",
        Json::array(usage_snapshot_json(usage)),
    ).put("phase", phase).done()
}

// ---------------------------------------------------------------------------
// Draining the public log
// ---------------------------------------------------------------------------

/// What has been drained: the records, the last id, and the seat whose execution was the last
/// thing seen.
pub struct DrainView {
    pub records: Seq<JsonView>,
    pub cursor: u64,
    pub executed: Option<SeatId>,
}

/// One more event drained.
pub open spec fn drain_one(
    d: DrainView,
    run_id: Seq<char>,
    game_id: u64,
    g: GameView,
    agents: Seq<AgentConfigView>,
    id: u64,
    ev: PublicEventView,
) -> DrainView {
    let deaths = death_records(run_id, game_id, g, agents, ev);
    match ev {
        PublicEventView::Executed { seat } => DrainView {
            records: d.records + deaths,
            cursor: id,
            executed: Some(seat),
        },
        PublicEventView::PlayerDied { seat } => DrainView {
            records: if d.executed == Some(seat) { d.records } else { d.records + deaths },
            cursor: id,
            executed: None,
        },
        PublicEventView::DiedInNight { .. } => DrainView {
            records: d.records + deaths,
            cursor: id,
            executed: None,
        },
        PublicEventView::Nominated { by, target } => DrainView {
            records: d.records.push(nomination_record(run_id, game_id, g, agents, by, target)),
            cursor: id,
            executed: None,
        },
        _ => DrainView { cursor: id, executed: None, ..d },
    }
}

/// A run of events drained in order.
pub open spec fn drained(
    run_id: Seq<char>,
    game_id: u64,
    g: GameView,
    agents: Seq<AgentConfigView>,
    events: Seq<(EventId, PublicEventView)>,
    cursor: u64,
) -> DrainView
    decreases events.len(),
{
    if events.len() == 0 {
        DrainView { records: seq![], cursor, executed: None }
    } else {
        drain_one(
            drained(run_id, game_id, g, agents, events.drop_last(), cursor),
            run_id,
            game_id,
            g,
            agents,
            events.last().0,
            events.last().1,
        )
    }
}

fn append_all(v: &mut Vec<Json>, more: Vec<Json>)
    ensures
        items_view(final(v)@) == items_view(old(v)@) + items_view(more@),
{
    let mut rest = more;
    let ghost all = rest@;
    v.append(&mut rest);
    assert(items_view(v@) =~= items_view(old(v)@) + items_view(all));
}

/// Process new public-log events since `cursor` (exclusive); returns the `death` / `nomination`
/// records and the new cursor.
///
/// Skips `PlayerDied` when the previous event in this batch was `Executed` for the same seat
/// (the engine emits both).
#[verifier::loop_isolation(false)]
pub fn drain_public_events(
    run_id: &str,
    game_id: u64,
    game: &Game,
    agents: &Vec<AgentConfig>,
    cursor: u64,
) -> (r: (Vec<Json>, u64))
    ensures
        ({
            let d = drained(
                run_id@,
                game_id,
                game@,
                agents_view(agents@),
                game@.public_log.since(cursor),
                cursor,
            );
            items_view(r.0@) == d.records && r.1 == d.cursor
        }),
{
    let events = game.public_log.since(cursor);
    let ghost all = crate::comms::public_refs(events@);
    let ghost who = agents_view(agents@);
    let mut records: Vec<Json> = Vec::new();
    let mut last = cursor;
    let mut prev_executed: Option<SeatId> = None;
    let mut i: usize = 0;
    assert(items_view(records@) =~= seq![]);
    while i < events.len()
        invariant
            i <= events@.len(),
            (DrainView { records: items_view(records@), cursor: last, executed: prev_executed })
                == drained(run_id@, game_id, game@, who, all.take(i as int), cursor),
        decreases events@.len() - i,
    {
        assert(all.take(i + 1).drop_last() =~= all.take(i as int));
        assert(all[i as int] == (events@[i as int].0, events@[i as int].1@));
        let ev = events[i].1;
        last = events[i].0;
        match ev {
            PublicEvent::Executed { seat } => {
                let deaths = death_records_from_public(run_id, game_id, game, agents, ev);
                append_all(&mut records, deaths);
                prev_executed = Some(*seat);
            },
            PublicEvent::PlayerDied { seat } => {
                // Duplicate of Executed — skip.
                let duplicate = match prev_executed {
                    Some(s) => s == *seat,
                    None => false,
                };
                if !duplicate {
                    let deaths = death_records_from_public(run_id, game_id, game, agents, ev);
                    append_all(&mut records, deaths);
                }
                prev_executed = None;
            },
            PublicEvent::DiedInNight { .. } => {
                let deaths = death_records_from_public(run_id, game_id, game, agents, ev);
                append_all(&mut records, deaths);
                prev_executed = None;
            },
            PublicEvent::Nominated { .. } => {
                if let Some(j) = log_nomination_if_any(run_id, game_id, game, agents, ev) {
                    let ghost before = records@;
                    records.push(j);
                    assert(items_view(records@) =~= items_view(before).push(j@));
                }
                prev_executed = None;
            },
            _ => {
                prev_executed = None;
            },
        }
        i += 1;
    }
    assert(all.take(i as int) =~= all);
    (records, last)
}

// ---------------------------------------------------------------------------
// Stamping
// ---------------------------------------------------------------------------

/// The object with a field it did not have; a field that is there stays.
pub open spec fn with_missing(record: JsonView, key: Seq<char>, value: JsonView) -> JsonView {
    if record.field(key) is None { record.with(key, value) } else { record }
}

fn put_missing(record: Json, key: &str, value: Json) -> (j: Json)
    ensures
        j@ == with_missing(record@, key@, value@),
{
    if record.get(key).is_some() {
        return record;
    }
    match record {
        Json::Obj(fields) => {
            let mut fields = fields;
            proof {
                crate::json::object_view(fields);
            }
            let ghost before = fields@;
            fields.push((key.to_owned(), value));
            proof {
                crate::json::object_view(fields);
                assert(crate::json::fields_view(fields@) =~= crate::json::fields_view(before).push(
                    (key@, value@),
                ));
            }
            Json::Obj(fields)
        },
        other => other,
    }
}

/// A record with the schema version and the time, unless it has them.
pub open spec fn stamped(record: JsonView, now_unix_ms: u64) -> JsonView {
    with_missing(
        with_missing(record, "v"@, JsonView::Int(SCHEMA_VERSION as int)),
        "ts_unix_ms"@,
        JsonView::Int(now_unix_ms as int),
    )
}

/// The record as it is written: with the schema version and the time, unless it has them.
pub fn stamp(record: Json, now_unix_ms: u64) -> (j: Json)
    ensures
        j@ == stamped(record@, now_unix_ms),
{
    let versioned = put_missing(record, "v", Json::Uint(SCHEMA_VERSION as u64));
    put_missing(versioned, "ts_unix_ms", Json::Uint(now_unix_ms))
}

/// The line for a record: one JSON object, stamped.
pub fn record_line(record: Json, now_unix_ms: u64) -> (s: String)
    ensures
        s@ == crate::json::json_text(stamped(record@, now_unix_ms)),
{
    crate::json::print(&stamp(record, now_unix_ms))
}

// ---------------------------------------------------------------------------
// Laws
// ---------------------------------------------------------------------------

/// An execution is one death: the `PlayerDied` that follows `Executed` for the same seat adds no
/// record.
pub proof fn executions_count_once(
    run_id: Seq<char>,
    game_id: u64,
    g: GameView,
    agents: Seq<AgentConfigView>,
    events: Seq<(EventId, PublicEventView)>,
    cursor: u64,
    seat: SeatId,
    a: u64,
    b: u64,
)
    ensures
        ({
            let once = events.push((a, PublicEventView::Executed { seat }));
            let twice = once.push((b, PublicEventView::PlayerDied { seat }));
            drained(run_id, game_id, g, agents, twice, cursor).records == drained(
                run_id,
                game_id,
                g,
                agents,
                once,
                cursor,
            ).records
        }),
{
    let once = events.push((a, PublicEventView::Executed { seat }));
    let twice = once.push((b, PublicEventView::PlayerDied { seat }));
    assert(twice.drop_last() =~= once);
    assert(once.drop_last() =~= events);
}

/// Draining moves the cursor to the last event, so no event is drained twice: with the new cursor
/// nothing is left.
pub proof fn draining_leaves_nothing(
    run_id: Seq<char>,
    game_id: u64,
    g: GameView,
    agents: Seq<AgentConfigView>,
    cursor: u64,
)
    requires
        g.public_log.numbered(),
    ensures
        ({
            let events = g.public_log.since(cursor);
            let after = drained(run_id, game_id, g, agents, events, cursor).cursor;
            g.public_log.since(after).len() == 0
        }),
{
    let log = g.public_log;
    let events = log.since(cursor);
    let after = drained(run_id, game_id, g, agents, events, cursor).cursor;
    if log.events.len() > 0 && log.events.last().0 > cursor {
        reveal(Seq::filter);
        assert(events.last() == log.events.last());
        nothing_above(log, after);
    } else {
        nothing_above(log, cursor);
    }
}

/// A log whose ids end at the cursor has nothing after it.
proof fn nothing_above(log: PublicLogView, cursor: u64)
    requires
        forall|i: int| 0 <= i < log.events.len() ==> (#[trigger] log.events[i]).0 <= cursor,
    ensures
        log.since(cursor).len() == 0,
    decreases log.events.len(),
{
    reveal(Seq::filter);
    if log.events.len() > 0 {
        let front = PublicLogView { events: log.events.drop_last(), ..log };
        assert forall|i: int| 0 <= i < front.events.len() implies (#[trigger] front.events[i]).0
            <= cursor by {
            assert(front.events[i] == log.events[i]);
        }
        nothing_above(front, cursor);
        assert(log.events[log.events.len() - 1].0 <= cursor);
    }
}

/// Exactly one team is marked as winner: a seat has won exactly if its team is the winning one.
pub proof fn winners_are_one_team(a: Character, b: Character, winner: Winner)
    ensures
        won(Some(a), winner) == (team_of(a) == match winner {
            Winner::Good => crate::roles::Team::Good,
            Winner::Evil => crate::roles::Team::Evil,
        }),
        team_of(a) == team_of(b) ==> won(Some(a), winner) == won(Some(b), winner),
{
    reveal_strlit("Good");
    reveal_strlit("Evil");
    assert("Good"@[0] == 'G');
    assert("Evil"@[0] == 'E');
}

} // verus!
