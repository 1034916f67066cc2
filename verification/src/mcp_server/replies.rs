//! JSON for views, events and messages.

use crate::comms::{
    opt_text, EventId, PrivateMessage, PrivateMessageView, PublicEvent, PublicEventView,
};
use crate::game::ids::SeatId;
use crate::game::night::ChoiceSchema;
use crate::game::phase::{winner_name, winner_word, Winner};
use crate::game::state::PublicSeatView;
use crate::json::{items_view, Fields, Json, JsonView};
use crate::tools::rules_docs::{team_label, team_word};
use crate::tools::{
    opt_str, private_entries, public_entries, AwaitingView, CharacterRulesView,
    CreateGameResponse, HostDecisionView, HostPendingView, HostSeatView, HostStateView,
    PlayerSeatToken, PrivateStateView, PublicStateView,
};
use vstd::prelude::*;
use vstd::string::*;

verus! {

/// A seat number.
pub open spec fn seat_number(s: SeatId) -> JsonView {
    JsonView::Int(s.0 as int)
}

/// Seat numbers.
pub open spec fn seat_numbers(seats: Seq<SeatId>) -> JsonView {
    JsonView::Arr(seats.map_values(|s: SeatId| seat_number(s)))
}

/// An optional seat number.
pub open spec fn opt_seat_number(s: Option<SeatId>) -> JsonView {
    match s {
        Some(s) => seat_number(s),
        None => JsonView::Null,
    }
}

/// An optional text.
pub open spec fn opt_text_json(s: Option<Seq<char>>) -> JsonView {
    match s {
        Some(t) => JsonView::Str(t),
        None => JsonView::Null,
    }
}

/// An optional winner.
pub open spec fn opt_winner(w: Option<Winner>) -> JsonView {
    match w {
        Some(w) => JsonView::Str(winner_word(w)),
        None => JsonView::Null,
    }
}

pub fn seat_json(s: SeatId) -> (j: Json)
    ensures
        j@ == seat_number(s),
{
    Json::Uint(s.0 as u64)
}

pub fn seats_json(seats: &Vec<SeatId>) -> (j: Json)
    ensures
        j@ == seat_numbers(seats@),
{
    let mut v: Vec<Json> = Vec::new();
    let mut i: usize = 0;
    while i < seats.len()
        invariant
            i <= seats@.len(),
            v@.len() == i,
            forall|k: int| 0 <= k < i ==> (#[trigger] v@[k])@ == seat_number(seats@[k]),
        decreases seats@.len() - i,
    {
        v.push(seat_json(seats[i]));
        i += 1;
    }
    assert(items_view(v@) =~= seats@.map_values(|s: SeatId| seat_number(s)));
    Json::array(v)
}

pub fn opt_seat_json(s: Option<SeatId>) -> (j: Json)
    ensures
        j@ == opt_seat_number(s),
{
    match s {
        Some(s) => seat_json(s),
        None => Json::Null,
    }
}

pub fn opt_string_json(s: &Option<String>) -> (j: Json)
    ensures
        j@ == opt_text_json(opt_text(*s)),
{
    match s {
        Some(t) => Json::text(t.as_str()),
        None => Json::Null,
    }
}

fn opt_str_json(s: Option<&'static str>) -> (j: Json)
    ensures
        j@ == opt_text_json(opt_str(s)),
{
    match s {
        Some(t) => Json::text(t),
        None => Json::Null,
    }
}

fn winner_json(w: Option<Winner>) -> (j: Json)
    ensures
        j@ == opt_winner(w),
{
    match w {
        Some(w) => Json::text(winner_name(w)),
        None => Json::Null,
    }
}

/// A choice schema.
pub open spec fn schema_reply(s: ChoiceSchema) -> JsonView {
    match s {
        ChoiceSchema::Ack => JsonView::object().with("kind"@, JsonView::Str("ack"@)),
        ChoiceSchema::PickOne { any_seat, living_only, exclude_self } => JsonView::object()
            .with("kind"@, JsonView::Str("pick_one"@))
            .with("any_seat"@, JsonView::Bool(any_seat))
            .with("living_only"@, JsonView::Bool(living_only))
            .with("exclude_self"@, JsonView::Bool(exclude_self)),
        ChoiceSchema::PickTwo { any_seat } => JsonView::object()
            .with("kind"@, JsonView::Str("pick_two"@))
            .with("any_seat"@, JsonView::Bool(any_seat)),
    }
}

pub fn choice_schema_json(s: &ChoiceSchema) -> (j: Json)
    ensures
        j@ == schema_reply(*s),
{
    match s {
        ChoiceSchema::Ack => Fields::new().put("kind", Json::text("ack")).done(),
        ChoiceSchema::PickOne { any_seat, living_only, exclude_self } => Fields::new().put(
            "kind",
            Json::text("pick_one"),
        ).put("any_seat", Json::Bool(*any_seat)).put("living_only", Json::Bool(*living_only)).put(
            "exclude_self",
            Json::Bool(*exclude_self),
        ).done(),
        ChoiceSchema::PickTwo { any_seat } => Fields::new().put(
            "kind",
            Json::text("pick_two"),
        ).put("any_seat", Json::Bool(*any_seat)).done(),
    }
}

/// A public event.
pub open spec fn event_reply(e: PublicEventView) -> JsonView {
    match e {
        PublicEventView::Chat { seat, name, text, .. } => JsonView::object()
            .with("type"@, JsonView::Str("chat"@))
            .with("seat"@, seat_number(seat))
            .with("name"@, JsonView::Str(name))
            .with("text"@, JsonView::Str(text)),
        PublicEventView::StorytellerAnnounce { text } => JsonView::object()
            .with("type"@, JsonView::Str("storyteller_announce"@))
            .with("text"@, JsonView::Str(text)),
        PublicEventView::Nominated { by, target } => JsonView::object()
            .with("type"@, JsonView::Str("nominated"@))
            .with("by"@, seat_number(by))
            .with("target"@, seat_number(target)),
        PublicEventView::VoteCast { seat, nominee, support } => JsonView::object()
            .with("type"@, JsonView::Str("vote_cast"@))
            .with("seat"@, seat_number(seat))
            .with("nominee"@, seat_number(nominee))
            .with("support"@, JsonView::Bool(support)),
        PublicEventView::Executed { seat } => JsonView::object()
            .with("type"@, JsonView::Str("executed"@))
            .with("seat"@, seat_number(seat)),
        PublicEventView::NoExecution => JsonView::object()
            .with("type"@, JsonView::Str("no_execution"@)),
        PublicEventView::DiedInNight { seats } => JsonView::object()
            .with("type"@, JsonView::Str("died_in_night"@))
            .with("seats"@, seat_numbers(seats)),
        PublicEventView::PlayerDied { seat } => JsonView::object()
            .with("type"@, JsonView::Str("player_died"@))
            .with("seat"@, seat_number(seat)),
        PublicEventView::SlayerMiss { slayer, target } => JsonView::object()
            .with("type"@, JsonView::Str("slayer_miss"@))
            .with("slayer"@, seat_number(slayer))
            .with("target"@, seat_number(target)),
        PublicEventView::PhaseChanged { summary } => JsonView::object()
            .with("type"@, JsonView::Str("phase_changed"@))
            .with("summary"@, JsonView::Str(summary)),
        PublicEventView::GameEnded { winner } => JsonView::object()
            .with("type"@, JsonView::Str("game_ended"@))
            .with("winner"@, JsonView::Str(team_word(winner))),
    }
}

pub fn public_event_json(e: &PublicEvent) -> (j: Json)
    ensures
        j@ == event_reply(e@),
{
    match e {
        PublicEvent::Chat { seat, name, text, .. } => Fields::new().put(
            "type",
            Json::text("chat"),
        ).put("seat", seat_json(*seat)).put("name", Json::text(name.as_str())).put(
            "text",
            Json::text(text.as_str()),
        ).done(),
        PublicEvent::StorytellerAnnounce { text } => Fields::new().put(
            "type",
            Json::text("storyteller_announce"),
        ).put("text", Json::text(text.as_str())).done(),
        PublicEvent::Nominated { by, target } => Fields::new().put(
            "type",
            Json::text("nominated"),
        ).put("by", seat_json(*by)).put("target", seat_json(*target)).done(),
        PublicEvent::VoteCast { seat, nominee, support } => Fields::new().put(
            "type",
            Json::text("vote_cast"),
        ).put("seat", seat_json(*seat)).put("nominee", seat_json(*nominee)).put(
            "support",
            Json::Bool(*support),
        ).done(),
        PublicEvent::Executed { seat } => Fields::new().put("type", Json::text("executed")).put(
            "seat",
            seat_json(*seat),
        ).done(),
        PublicEvent::NoExecution => Fields::new().put("type", Json::text("no_execution")).done(),
        PublicEvent::DiedInNight { seats } => Fields::new().put(
            "type",
            Json::text("died_in_night"),
        ).put("seats", seats_json(seats)).done(),
        PublicEvent::PlayerDied { seat } => Fields::new().put(
            "type",
            Json::text("player_died"),
        ).put("seat", seat_json(*seat)).done(),
        PublicEvent::SlayerMiss { slayer, target } => Fields::new().put(
            "type",
            Json::text("slayer_miss"),
        ).put("slayer", seat_json(*slayer)).put("target", seat_json(*target)).done(),
        PublicEvent::PhaseChanged { summary } => Fields::new().put(
            "type",
            Json::text("phase_changed"),
        ).put("summary", Json::text(summary.as_str())).done(),
        PublicEvent::GameEnded { winner } => Fields::new().put(
            "type",
            Json::text("game_ended"),
        ).put("winner", Json::text(team_label(*winner))).done(),
    }
}

/// A private message.
pub open spec fn message_reply(m: PrivateMessageView) -> JsonView {
    match m {
        PrivateMessageView::YouAre { character_label, team, rules_path, note } => JsonView::object()
            .with("type"@, JsonView::Str("you_are"@))
            .with("character_label"@, JsonView::Str(character_label))
            .with("team"@, JsonView::Str(team_word(team)))
            .with("rules_path"@, JsonView::Str(rules_path))
            .with("note"@, opt_text_json(note)),
        PrivateMessageView::NightPrompt { text } => JsonView::object()
            .with("type"@, JsonView::Str("night_prompt"@))
            .with("text"@, JsonView::Str(text)),
        PrivateMessageView::NightResult { text } => JsonView::object()
            .with("type"@, JsonView::Str("night_result"@))
            .with("text"@, JsonView::Str(text)),
        PrivateMessageView::EvilBriefing { text } => JsonView::object()
            .with("type"@, JsonView::Str("evil_briefing"@))
            .with("text"@, JsonView::Str(text)),
        PrivateMessageView::System { text } => JsonView::object()
            .with("type"@, JsonView::Str("system"@))
            .with("text"@, JsonView::Str(text)),
    }
}

fn typed_text(kind: &str, text: &String) -> (j: Json)
    ensures
        j@ == JsonView::object()
            .with("type"@, JsonView::Str(kind@))
            .with("text"@, JsonView::Str(text@)),
{
    Fields::new().put("type", Json::text(kind)).put("text", Json::text(text.as_str())).done()
}

pub fn private_message_json(m: &PrivateMessage) -> (j: Json)
    ensures
        j@ == message_reply(m@),
{
    match m {
        PrivateMessage::YouAre { character_label, team, rules_path, note } => Fields::new().put(
            "type",
            Json::text("you_are"),
        ).put("character_label", Json::text(character_label.as_str())).put(
            "team",
            Json::text(team_label(*team)),
        ).put("rules_path", Json::text(rules_path.as_str())).put(
            "note",
            opt_string_json(note),
        ).done(),
        PrivateMessage::NightPrompt { text } => typed_text("night_prompt", text),
        PrivateMessage::NightResult { text } => typed_text("night_result", text),
        PrivateMessage::EvilBriefing { text } => typed_text("evil_briefing", text),
        PrivateMessage::System { text } => typed_text("system", text),
    }
}

/// A public seat.
pub open spec fn public_seat_reply(s: PublicSeatView) -> JsonView {
    JsonView::object()
        .with("id"@, seat_number(s.id))
        .with("name"@, JsonView::Str(s.name@))
        .with("alive"@, JsonView::Bool(s.alive))
        .with("ghost_vote_available"@, JsonView::Bool(s.ghost_vote_available))
}

/// The public state.
pub open spec fn public_state_reply(
    phase: Seq<char>,
    seats: Seq<PublicSeatView>,
    winner: Option<Winner>,
) -> JsonView {
    JsonView::object()
        .with("phase"@, JsonView::Str(phase))
        .with("seats"@, JsonView::Arr(seats.map_values(|s: PublicSeatView| public_seat_reply(s))))
        .with("winner"@, opt_winner(winner))
}

pub fn public_state_json(view: &PublicStateView) -> (j: Json)
    ensures
        j@ == public_state_reply(view.phase@, view.seats@, view.winner),
{
    let mut v: Vec<Json> = Vec::new();
    let mut i: usize = 0;
    while i < view.seats.len()
        invariant
            i <= view.seats@.len(),
            v@.len() == i,
            forall|k: int| 0 <= k < i ==> (#[trigger] v@[k])@ == public_seat_reply(view.seats@[k]),
        decreases view.seats@.len() - i,
    {
        let s = &view.seats[i];
        v.push(
            Fields::new().put("id", seat_json(s.id)).put("name", Json::text(s.name.as_str())).put(
                "alive",
                Json::Bool(s.alive),
            ).put("ghost_vote_available", Json::Bool(s.ghost_vote_available)).done(),
        );
        i += 1;
    }
    assert(items_view(v@) =~= view.seats@.map_values(|s: PublicSeatView| public_seat_reply(s)));
    Fields::new().put("phase", Json::text(view.phase.as_str())).put("seats", Json::array(v)).put(
        "winner",
        winner_json(view.winner),
    ).done()
}

/// The public log.
pub open spec fn log_reply(events: Seq<(EventId, PublicEventView)>) -> JsonView {
    JsonView::object().with(
"events"@,
JsonView::Arr(
                    events.map_values(
                        |e: (EventId, PublicEventView)|
                            JsonView::object()
                                .with("id"@, JsonView::Int(e.0 as int))
                                .with("event"@, event_reply(e.1)),
                    ),
                ),
)
}

pub fn public_log_json(log: &Vec<(EventId, PublicEvent)>) -> (j: Json)
    ensures
        j@ == log_reply(public_entries(log@)),
{
    let ghost shape = |e: (EventId, PublicEventView)|
        JsonView::object().with("id"@, JsonView::Int(e.0 as int)).with("event"@, event_reply(e.1));
    let mut v: Vec<Json> = Vec::new();
    let mut i: usize = 0;
    while i < log.len()
        invariant
            i <= log@.len(),
            v@.len() == i,
            shape == (|e: (EventId, PublicEventView)|
                JsonView::object()
                    .with("id"@, JsonView::Int(e.0 as int))
                    .with("event"@, event_reply(e.1))),
            forall|k: int| 0 <= k < i ==> (#[trigger] v@[k])@ == shape((log@[k].0, log@[k].1@)),
        decreases log@.len() - i,
    {
        v.push(
            Fields::new().put("id", Json::Uint(log[i].0)).put(
                "event",
                public_event_json(&log[i].1),
            ).done(),
        );
        i += 1;
    }
    assert(items_view(v@) =~= public_entries(log@).map_values(shape));
    Fields::new().put("events", Json::array(v)).done()
}

/// A list of private messages.
pub open spec fn messages_reply(messages: Seq<(EventId, PrivateMessageView)>) -> JsonView {
    JsonView::Arr(
        messages.map_values(
            |e: (EventId, PrivateMessageView)|
                JsonView::object()
                    .with("id"@, JsonView::Int(e.0 as int))
                    .with("message"@, message_reply(e.1)),
        ),
    )
}

fn messages_json(messages: &Vec<(EventId, PrivateMessage)>) -> (j: Json)
    ensures
        j@ == messages_reply(private_entries(messages@)),
{
    let ghost shape = |e: (EventId, PrivateMessageView)|
        JsonView::object()
            .with("id"@, JsonView::Int(e.0 as int))
            .with("message"@, message_reply(e.1));
    let mut v: Vec<Json> = Vec::new();
    let mut i: usize = 0;
    while i < messages.len()
        invariant
            i <= messages@.len(),
            v@.len() == i,
            shape == (|e: (EventId, PrivateMessageView)|
                JsonView::object()
                    .with("id"@, JsonView::Int(e.0 as int))
                    .with("message"@, message_reply(e.1))),
            forall|k: int|
                0 <= k < i ==> (#[trigger] v@[k])@ == shape((messages@[k].0, messages@[k].1@)),
        decreases messages@.len() - i,
    {
        v.push(
            Fields::new().put("id", Json::Uint(messages[i].0)).put(
                "message",
                private_message_json(&messages[i].1),
            ).done(),
        );
        i += 1;
    }
    assert(items_view(v@) =~= private_entries(messages@).map_values(shape));
    Json::array(v)
}

/// A pending action as its own player sees it.
pub open spec fn awaiting_reply(v: AwaitingView) -> JsonView {
    JsonView::object()
        .with("action"@, JsonView::Str(v.action@))
        .with("prompt"@, JsonView::Str(v.prompt@))
        .with("schema"@, schema_reply(v.schema))
}

/// The private state.
pub open spec fn private_state_reply(v: PrivateStateView) -> JsonView {
    JsonView::object()
        .with("seat"@, seat_number(v.seat))
        .with("name"@, JsonView::Str(v.name@))
        .with("alive"@, JsonView::Bool(v.alive))
        .with("character_label"@, opt_text_json(opt_text(v.character_label)))
        .with("team_label"@, opt_text_json(opt_text(v.team_label)))
        .with("rules_path"@, opt_text_json(opt_text(v.rules_path)))
        .with("private_messages_since"@, messages_reply(private_entries(v.private_messages_since@)))
        .with("awaiting_action"@, JsonView::Bool(v.awaiting_action))
        .with(
"awaiting"@,
match v.awaiting {
                    Some(a) => awaiting_reply(a),
                    None => JsonView::Null,
                },
)
}

pub fn private_state_json(view: &PrivateStateView) -> (j: Json)
    ensures
        j@ == private_state_reply(*view),
{
    let awaiting = match &view.awaiting {
        Some(a) => Fields::new().put("action", Json::text(a.action)).put(
            "prompt",
            Json::text(a.prompt.as_str()),
        ).put("schema", choice_schema_json(&a.schema)).done(),
        None => Json::Null,
    };
    Fields::new().put("seat", seat_json(view.seat)).put("name", Json::text(view.name.as_str())).put(
        "alive",
        Json::Bool(view.alive),
    ).put("character_label", opt_string_json(&view.character_label)).put(
        "team_label",
        opt_string_json(&view.team_label),
    ).put("rules_path", opt_string_json(&view.rules_path)).put(
        "private_messages_since",
        messages_json(&view.private_messages_since),
    ).put("awaiting_action", Json::Bool(view.awaiting_action)).put("awaiting", awaiting).done()
}

/// A seat of the grimoire.
pub open spec fn host_seat_reply(s: HostSeatView) -> JsonView {
    JsonView::object()
        .with("seat_id"@, seat_number(s.seat_id))
        .with("name"@, JsonView::Str(s.name@))
        .with("alive"@, JsonView::Bool(s.alive))
        .with("ghost_vote_available"@, JsonView::Bool(s.ghost_vote_available))
        .with("true_character"@, opt_text_json(opt_str(s.true_character)))
        .with("believed_character"@, opt_text_json(opt_str(s.believed_character)))
        .with("poisoned"@, JsonView::Bool(s.poisoned))
        .with("is_drunk_outsider"@, JsonView::Bool(s.is_drunk_outsider))
        .with("monk_protected_tonight"@, JsonView::Bool(s.monk_protected_tonight))
        .with("slayer_used"@, JsonView::Bool(s.slayer_used))
        .with("virgin_ability_used"@, JsonView::Bool(s.virgin_ability_used))
        .with("butler_master"@, opt_seat_number(s.butler_master))
}

fn host_seat_json(s: &HostSeatView) -> (j: Json)
    ensures
        j@ == host_seat_reply(*s),
{
    Fields::new().put("seat_id", seat_json(s.seat_id)).put("name", Json::text(s.name.as_str())).put(
        "alive",
        Json::Bool(s.alive),
    ).put("ghost_vote_available", Json::Bool(s.ghost_vote_available)).put(
        "true_character",
        opt_str_json(s.true_character),
    ).put("believed_character", opt_str_json(s.believed_character)).put(
        "poisoned",
        Json::Bool(s.poisoned),
    ).put("is_drunk_outsider", Json::Bool(s.is_drunk_outsider)).put(
        "monk_protected_tonight",
        Json::Bool(s.monk_protected_tonight),
    ).put("slayer_used", Json::Bool(s.slayer_used)).put(
        "virgin_ability_used",
        Json::Bool(s.virgin_ability_used),
    ).put("butler_master", opt_seat_json(s.butler_master)).done()
}

/// A pending wake as the host sees it.
pub open spec fn host_pending_reply(p: HostPendingView) -> JsonView {
    JsonView::object()
        .with("seat_id"@, seat_number(p.seat_id))
        .with("prompt"@, JsonView::Str(p.prompt@))
        .with("schema"@, schema_reply(p.schema))
        .with("step_debug"@, JsonView::Str(p.step_debug@))
}

/// An open Storyteller decision.
pub open spec fn host_decision_reply(p: HostDecisionView) -> JsonView {
    JsonView::object()
        .with("kind"@, JsonView::Str(p.kind@))
        .with("detail"@, JsonView::Str(p.detail@))
        .with("seats"@, seat_numbers(p.seats@))
}

/// The grimoire.
pub open spec fn host_state_reply(v: HostStateView) -> JsonView {
    JsonView::object()
        .with("seed"@, JsonView::Int(v.seed as int))
        .with("secret_salt"@, JsonView::Int(v.secret_salt as int))
        .with("phase"@, JsonView::Str(v.phase@))
        .with("seats"@, JsonView::Arr(v.seats@.map_values(|s: HostSeatView| host_seat_reply(s))))
        .with(
"pending"@,
match v.pending {
                    Some(p) => host_pending_reply(p),
                    None => JsonView::Null,
                },
).with(
"pending_host"@,
match v.pending_host {
                    Some(p) => host_decision_reply(p),
                    None => JsonView::Null,
                },
)
    .with("registration_mode"@, JsonView::Str(v.registration_mode@))
    .with("host_lie_queue_len"@, JsonView::Int(v.host_lie_queue_len as int))
    .with("red_herring"@, opt_seat_number(v.red_herring))
    .with("demon_bluffs"@, JsonView::Arr(v.demon_bluffs@.map_values(|s: &'static str| JsonView::Str(s@))))
    .with("winner"@, opt_winner(v.winner))
}

fn host_seats_json(seats: &Vec<HostSeatView>) -> (j: Json)
    ensures
        j@ == JsonView::Arr(seats@.map_values(|s: HostSeatView| host_seat_reply(s))),
{
    let mut v: Vec<Json> = Vec::new();
    let mut i: usize = 0;
    while i < seats.len()
        invariant
            i <= seats@.len(),
            v@.len() == i,
            forall|k: int| 0 <= k < i ==> (#[trigger] v@[k])@ == host_seat_reply(seats@[k]),
        decreases seats@.len() - i,
    {
        v.push(host_seat_json(&seats[i]));
        i += 1;
    }
    assert(items_view(v@) =~= seats@.map_values(|s: HostSeatView| host_seat_reply(s)));
    Json::array(v)
}

fn words_json(words: &Vec<&'static str>) -> (j: Json)
    ensures
        j@ == JsonView::Arr(words@.map_values(|s: &'static str| JsonView::Str(s@))),
{
    let mut v: Vec<Json> = Vec::new();
    let mut i: usize = 0;
    while i < words.len()
        invariant
            i <= words@.len(),
            v@.len() == i,
            forall|k: int| 0 <= k < i ==> (#[trigger] v@[k])@ == JsonView::Str(words@[k]@),
        decreases words@.len() - i,
    {
        v.push(Json::text(words[i]));
        i += 1;
    }
    assert(items_view(v@) =~= words@.map_values(|s: &'static str| JsonView::Str(s@)));
    Json::array(v)
}

pub fn host_state_json(view: &HostStateView) -> (j: Json)
    ensures
        j@ == host_state_reply(*view),
{
    let pending = match &view.pending {
        Some(p) => Fields::new().put("seat_id", seat_json(p.seat_id)).put(
            "prompt",
            Json::text(p.prompt.as_str()),
        ).put("schema", choice_schema_json(&p.schema)).put(
            "step_debug",
            Json::text(p.step_debug.as_str()),
        ).done(),
        None => Json::Null,
    };
    let pending_host = match &view.pending_host {
        Some(p) => Fields::new().put("kind", Json::text(p.kind.as_str())).put(
            "detail",
            Json::text(p.detail.as_str()),
        ).put("seats", seats_json(&p.seats)).done(),
        None => Json::Null,
    };
    Fields::new().put("seed", Json::Uint(view.seed)).put(
        "secret_salt",
        Json::Uint(view.secret_salt),
    ).put("phase", Json::text(view.phase.as_str())).put("seats", host_seats_json(&view.seats)).put(
        "pending",
        pending,
    ).put("pending_host", pending_host).put(
        "registration_mode",
        Json::text(view.registration_mode.as_str()),
    ).put("host_lie_queue_len", Json::Uint(view.host_lie_queue_len as u64)).put(
        "red_herring",
        opt_seat_json(view.red_herring),
    ).put("demon_bluffs", words_json(&view.demon_bluffs)).put(
        "winner",
        winner_json(view.winner),
    ).done()
}

/// A character sheet.
pub open spec fn rules_reply(v: CharacterRulesView) -> JsonView {
    JsonView::object()
        .with("name"@, JsonView::Str(v.name@))
        .with("path"@, JsonView::Str(v.path@))
        .with("team"@, JsonView::Str(v.team@))
        .with("character_type"@, JsonView::Str(v.character_type@))
        .with("text"@, JsonView::Str(v.text@))
}

pub fn character_rules_json(view: &CharacterRulesView) -> (j: Json)
    ensures
        j@ == rules_reply(*view),
{
    Fields::new().put("name", Json::text(view.name)).put("path", Json::text(view.path)).put(
        "team",
        Json::text(view.team.as_str()),
    ).put("character_type", Json::text(view.character_type.as_str())).put(
        "text",
        Json::text(view.text.as_str()),
    ).done()
}

/// The credentials of one seat.
pub open spec fn player_reply(p: PlayerSeatToken) -> JsonView {
    JsonView::object()
        .with("seat_id"@, seat_number(p.seat_id))
        .with("name"@, JsonView::Str(p.name@))
        .with("player_token"@, JsonView::Str(p.player_token@))
}

/// The credentials of a new table.
pub open spec fn created_reply(resp: CreateGameResponse) -> JsonView {
    JsonView::object()
        .with("game_id"@, JsonView::Int(resp.game_id.0 as int))
        .with("host_token"@, JsonView::Str(resp.host_token@))
        .with("players"@, JsonView::Arr(resp.players@.map_values(|p: PlayerSeatToken| player_reply(p))))
}

pub fn created_json(resp: &CreateGameResponse) -> (j: Json)
    ensures
        j@ == created_reply(*resp),
{
    let mut v: Vec<Json> = Vec::new();
    let mut i: usize = 0;
    while i < resp.players.len()
        invariant
            i <= resp.players@.len(),
            v@.len() == i,
            forall|k: int| 0 <= k < i ==> (#[trigger] v@[k])@ == player_reply(resp.players@[k]),
        decreases resp.players@.len() - i,
    {
        let p = &resp.players[i];
        v.push(
            Fields::new().put("seat_id", seat_json(p.seat_id)).put(
                "name",
                Json::text(p.name.as_str()),
            ).put("player_token", Json::text(p.player_token.as_str())).done(),
        );
        i += 1;
    }
    assert(items_view(v@) =~= resp.players@.map_values(|p: PlayerSeatToken| player_reply(p)));
    Fields::new().put("game_id", Json::Uint(resp.game_id.0)).put(
        "host_token",
        Json::text(resp.host_token.as_str()),
    ).put("players", Json::array(v)).done()
}

} // verus!
