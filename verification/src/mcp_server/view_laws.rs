//! What the replies tell: everybody the public side, a player the own face and mail, the host the
//! grimoire, and nobody what is not theirs.

use super::args::{night_payload_in, NightPayloadView, RpcErrorView};
use super::names::display_names_read_back;
use super::replies::{
    event_reply, host_seat_reply, host_state_reply, message_reply, private_state_reply,
    public_seat_reply, schema_reply,
};
use super::tool_laws::{asked_of, names_seat};
use super::{calls, dispatches, enveloped, invokes, response, Reply};
use crate::auth::Actor;
use crate::comms::{PrivateMessageView, PublicEventView};
use crate::game::ability::info_laws::{distinct_ids, found_where_it_stands, is_evil};
use crate::game::ids::{GameId, SeatId};
use crate::game::night::ChoiceSchema;
use crate::game::state::{lobby_tokens_resolve, GameView};
use crate::json::JsonView;
use crate::roles::data::name_of;
use crate::roles::{Character, Team};
use crate::store::{inserted_game_is_found, GameStoreView};
use crate::tools::{creates, is_created, player_secrets, CreateGameResponse};
use crate::tools::views::{HostStateView, PrivateStateView};
use vstd::prelude::*;

verus! {

/// The object has this value under this key.
pub open spec fn says(o: JsonView, key: Seq<char>, value: JsonView) -> bool {
    o matches JsonView::Obj(fields) && fields.contains((key, value))
}

/// A number.
pub open spec fn number(n: int) -> JsonView {
    JsonView::Int(n)
}

proof fn telling_more(o: JsonView, key: Seq<char>, value: JsonView)
    requires
        o is Obj,
    ensures
        o.with(key, value) is Obj,
        says(o.with(key, value), key, value),
        forall|k: Seq<char>, v: JsonView| #[trigger] says(o, k, v) ==> says(o.with(key, value), k, v),
{
    let fields = o->Obj_0;
    let longer = fields.push((key, value));
    assert(longer[fields.len() as int] == (key, value));
    assert forall|k: Seq<char>, v: JsonView| #[trigger] says(o, k, v) implies says(
        o.with(key, value),
        k,
        v,
    ) by {
        let i = fields.index_of((k, v));
        assert(longer[i] == (k, v));
    }
}

/// An event is told as it happened: who, whom, and how.
pub proof fn events_are_told_as_they_happened(
    seat: SeatId,
    other: SeatId,
    support: bool,
    name: Seq<char>,
    text: Seq<char>,
    to: Option<SeatId>,
)
    ensures
        says(
            event_reply(PublicEventView::VoteCast { seat, nominee: other, support }),
            "support"@,
            JsonView::Bool(support),
        ),
        says(
            event_reply(PublicEventView::VoteCast { seat, nominee: other, support }),
            "seat"@,
            number(seat.0 as int),
        ),
        says(
            event_reply(PublicEventView::VoteCast { seat, nominee: other, support }),
            "nominee"@,
            number(other.0 as int),
        ),
        says(
            event_reply(PublicEventView::Nominated { by: seat, target: other }),
            "by"@,
            number(seat.0 as int),
        ),
        says(
            event_reply(PublicEventView::Nominated { by: seat, target: other }),
            "target"@,
            number(other.0 as int),
        ),
        says(event_reply(PublicEventView::Executed { seat }), "seat"@, number(seat.0 as int)),
        says(event_reply(PublicEventView::PlayerDied { seat }), "seat"@, number(seat.0 as int)),
        says(
            event_reply(PublicEventView::SlayerMiss { slayer: seat, target: other }),
            "slayer"@,
            number(seat.0 as int),
        ),
        says(
            event_reply(PublicEventView::SlayerMiss { slayer: seat, target: other }),
            "target"@,
            number(other.0 as int),
        ),
        says(event_reply(PublicEventView::Chat { seat, name, text, to }), "text"@, JsonView::Str(text)),
        says(event_reply(PublicEventView::Chat { seat, name, text, to }), "name"@, JsonView::Str(name)),
        says(
            event_reply(PublicEventView::Chat { seat, name, text, to }),
            "seat"@,
            number(seat.0 as int),
        ),
        says(
            event_reply(PublicEventView::StorytellerAnnounce { text }),
            "text"@,
            JsonView::Str(text),
        ),
        says(
            event_reply(PublicEventView::GameEnded { winner: Team::Good }),
            "winner"@,
            JsonView::Str("Good"@),
        ),
        says(
            event_reply(PublicEventView::GameEnded { winner: Team::Evil }),
            "winner"@,
            JsonView::Str("Evil"@),
        ),
{
    let o = JsonView::object();
    let num = |s: SeatId| number(s.0 as int);
    let a = o.with("type"@, JsonView::Str("vote_cast"@));
    let b = a.with("seat"@, num(seat));
    let c = b.with("nominee"@, num(other));
    telling_more(a, "seat"@, num(seat));
    telling_more(b, "nominee"@, num(other));
    telling_more(c, "support"@, JsonView::Bool(support));
    let a = o.with("type"@, JsonView::Str("nominated"@));
    telling_more(a, "by"@, num(seat));
    telling_more(a.with("by"@, num(seat)), "target"@, num(other));
    telling_more(o.with("type"@, JsonView::Str("executed"@)), "seat"@, num(seat));
    telling_more(o.with("type"@, JsonView::Str("player_died"@)), "seat"@, num(seat));
    let a = o.with("type"@, JsonView::Str("slayer_miss"@));
    telling_more(a, "slayer"@, num(seat));
    telling_more(a.with("slayer"@, num(seat)), "target"@, num(other));
    let a = o.with("type"@, JsonView::Str("chat"@));
    let b = a.with("seat"@, num(seat));
    let c = b.with("name"@, JsonView::Str(name));
    telling_more(a, "seat"@, num(seat));
    telling_more(b, "name"@, JsonView::Str(name));
    telling_more(c, "text"@, JsonView::Str(text));
    telling_more(
        o.with("type"@, JsonView::Str("storyteller_announce"@)),
        "text"@,
        JsonView::Str(text),
    );
    let a = o.with("type"@, JsonView::Str("game_ended"@));
    telling_more(a, "winner"@, JsonView::Str("Good"@));
    telling_more(a, "winner"@, JsonView::Str("Evil"@));
}

/// A private message is handed on in its own words.
pub proof fn messages_are_handed_on(text: Seq<char>, label: Seq<char>, path: Seq<char>, team: Team)
    ensures
        says(
            message_reply(PrivateMessageView::NightResult { text }),
            "text"@,
            JsonView::Str(text),
        ),
        says(
            message_reply(PrivateMessageView::NightPrompt { text }),
            "text"@,
            JsonView::Str(text),
        ),
        says(
            message_reply(PrivateMessageView::EvilBriefing { text }),
            "text"@,
            JsonView::Str(text),
        ),
        says(
            message_reply(
                PrivateMessageView::YouAre {
                    character_label: label,
                    team,
                    rules_path: path,
                    note: None,
                },
            ),
            "character_label"@,
            JsonView::Str(label),
        ),
        says(
            message_reply(
                PrivateMessageView::YouAre {
                    character_label: label,
                    team,
                    rules_path: path,
                    note: None,
                },
            ),
            "team"@,
            JsonView::Str(if team == Team::Good { "Good"@ } else { "Evil"@ }),
        ),
{
    let o = JsonView::object();
    telling_more(o.with("type"@, JsonView::Str("night_result"@)), "text"@, JsonView::Str(text));
    telling_more(o.with("type"@, JsonView::Str("night_prompt"@)), "text"@, JsonView::Str(text));
    telling_more(o.with("type"@, JsonView::Str("evil_briefing"@)), "text"@, JsonView::Str(text));
    let side = JsonView::Str(if team == Team::Good { "Good"@ } else { "Evil"@ });
    let a = o.with("type"@, JsonView::Str("you_are"@));
    let b = a.with("character_label"@, JsonView::Str(label));
    let c = b.with("team"@, side);
    let d = c.with("rules_path"@, JsonView::Str(path));
    telling_more(a, "character_label"@, JsonView::Str(label));
    telling_more(b, "team"@, side);
    telling_more(c, "rules_path"@, JsonView::Str(path));
    telling_more(d, "note"@, JsonView::Null);
}

/// What a wake asks for is told as it is.
pub proof fn choices_are_described(any_seat: bool, living_only: bool, exclude_self: bool)
    ensures
        ({
            let one = schema_reply(ChoiceSchema::PickOne { any_seat, living_only, exclude_self });
            &&& says(one, "kind"@, JsonView::Str("pick_one"@))
            &&& says(one, "any_seat"@, JsonView::Bool(any_seat))
            &&& says(one, "living_only"@, JsonView::Bool(living_only))
            &&& says(one, "exclude_self"@, JsonView::Bool(exclude_self))
        }),
{
    let o = JsonView::object();
    let a = o.with("kind"@, JsonView::Str("pick_one"@));
    let b = a.with("any_seat"@, JsonView::Bool(any_seat));
    let c = b.with("living_only"@, JsonView::Bool(living_only));
    telling_more(o, "kind"@, JsonView::Str("pick_one"@));
    telling_more(a, "any_seat"@, JsonView::Bool(any_seat));
    telling_more(b, "living_only"@, JsonView::Bool(living_only));
    telling_more(c, "exclude_self"@, JsonView::Bool(exclude_self));
}

/// `get_public_state` shows every seat with its number, its name and whether it is publicly alive,
/// to everybody who holds a token and to nobody else.
pub proof fn everyone_sees_the_table(
    before: GameStoreView,
    args: JsonView,
    sheet: Option<Seq<char>>,
    after: GameStoreView,
    reply: Reply,
    id: GameId,
    g: GameView,
    token: Seq<char>,
    actor: Option<Actor>,
    i: int,
)
    requires
        invokes(before, "get_public_state"@, args, sheet, after, reply),
        asked_of(before, args, id, g, token, actor),
        0 <= i < g.seats.len(),
    ensures
        after == before,
        actor is None ==> reply is Err,
        actor is Some ==> (reply matches Ok(v) && (v matches JsonView::Obj(fields)
            && fields.len() == 3 && fields[1].0 == "seats"@ && (
        fields[1].1 matches JsonView::Arr(rows) && rows.len() == g.seats.len() && ({
            let night = g.phase is FirstNight || g.phase is Night;
            let shown = g.seats[i].alive || (night && g.deaths_tonight.contains(g.seats[i].id));
            &&& says(rows[i], "id"@, number(g.seats[i].id.0 as int))
            &&& says(rows[i], "name"@, JsonView::Str(g.seats[i].display_name@))
            &&& says(rows[i], "alive"@, JsonView::Bool(shown))
            &&& says(
                rows[i],
                "ghost_vote_available"@,
                JsonView::Bool(g.seats[i].ghost_vote_available),
            )
        })))),
{
    view_names_differ();
    if actor is Some {
        let s = g.roster()[i];
        let o = JsonView::object();
        let a = o.with("id"@, number(s.id.0 as int));
        let b = a.with("name"@, JsonView::Str(s.name@));
        let c = b.with("alive"@, JsonView::Bool(s.alive));
        telling_more(o, "id"@, number(s.id.0 as int));
        telling_more(a, "name"@, JsonView::Str(s.name@));
        telling_more(b, "alive"@, JsonView::Bool(s.alive));
        telling_more(c, "ghost_vote_available"@, JsonView::Bool(s.ghost_vote_available));
        let rows = g.roster().map_values(
            |s: crate::game::state::PublicSeatView| public_seat_reply(s),
        );
        assert(rows[i] == public_seat_reply(s));
    }
}

proof fn view_names_differ()
    ensures
        "create_game"@.len() == 11,
        "start_game"@.len() == 10,
        "get_public_state"@.len() == 16,
        "get_public_log"@.len() == 14 && "get_public_log"@[4] == 'p',
        "get_private_state"@.len() == 17,
        "get_character_rules"@.len() == 19,
        "get_host_state"@.len() == 14 && "get_host_state"@[4] == 'h',
{
    reveal_strlit("create_game");
    reveal_strlit("start_game");
    reveal_strlit("get_public_state");
    reveal_strlit("get_public_log");
    reveal_strlit("get_private_state");
    reveal_strlit("get_character_rules");
    reveal_strlit("get_host_state");
}

/// `get_private_state` tells the caller's own seat, whether they live, and the character they
/// believe to be, never the true one behind a face.
pub proof fn players_see_their_own_face(
    before: GameStoreView,
    args: JsonView,
    sheet: Option<Seq<char>>,
    after: GameStoreView,
    reply: Reply,
    id: GameId,
    g: GameView,
    token: Seq<char>,
    p: int,
)
    requires
        invokes(before, "get_private_state"@, args, sheet, after, reply),
        distinct_ids(g.seats),
        0 <= p < g.seats.len(),
        asked_of(before, args, id, g, token, Some(Actor::Player { seat: g.seats[p].id })),
    ensures
        after == before,
        reply matches Ok(v) && {
            let s = g.seats[p];
            let woken = g.pending_night matches Some(w) && w.seat == s.id;
            &&& says(v, "seat"@, number(s.id.0 as int))
            &&& says(v, "alive"@, JsonView::Bool(s.alive))
            &&& says(v, "awaiting_action"@, JsonView::Bool(woken))
            &&& s.believed_character matches Some(face) ==> says(
                v,
                "character_label"@,
                JsonView::Str(name_of(face)),
            )
            &&& s.believed_character is None ==> (s.true_character matches Some(c) ==> says(
                v,
                "character_label"@,
                JsonView::Str(name_of(c)),
            ))
            &&& s.believed_character is None && s.true_character is None ==> says(
                v,
                "character_label"@,
                JsonView::Null,
            )
        },
{
    view_names_differ();
    found_where_it_stands(g.seats, p);
    let s = g.seats[p];
    let cursor = super::cursor_in(args.either("private_cursor"@, "cursor"@));
    let v = choose|v: PrivateStateView| #[trigger]
        v.shows(g, s, s.id, cursor) && reply == Ok::<JsonView, RpcErrorView>(
            private_state_reply(v),
        );
    own_view_tells(v);
}

proof fn own_view_tells(v: PrivateStateView)
    ensures
        ({
            let r = private_state_reply(v);
            &&& says(r, "seat"@, number(v.seat.0 as int))
            &&& says(r, "alive"@, JsonView::Bool(v.alive))
            &&& says(
                r,
                "character_label"@,
                super::replies::opt_text_json(crate::comms::opt_text(v.character_label)),
            )
            &&& says(r, "awaiting_action"@, JsonView::Bool(v.awaiting_action))
        }),
{
    let fields = private_state_reply(v)->Obj_0;
    assert(fields[0] == ("seat"@, number(v.seat.0 as int)));
    assert(fields[2] == ("alive"@, JsonView::Bool(v.alive)));
    assert(fields[3] == (
        "character_label"@,
        super::replies::opt_text_json(crate::comms::opt_text(v.character_label)),
    ));
    assert(fields[7] == ("awaiting_action"@, JsonView::Bool(v.awaiting_action)));
}

/// `get_host_state` shows the host, and nobody else, what everybody truly is and suffers.
pub proof fn the_host_sees_the_grimoire(
    before: GameStoreView,
    args: JsonView,
    sheet: Option<Seq<char>>,
    after: GameStoreView,
    reply: Reply,
    id: GameId,
    g: GameView,
    token: Seq<char>,
    actor: Option<Actor>,
    i: int,
)
    requires
        invokes(before, "get_host_state"@, args, sheet, after, reply),
        asked_of(before, args, id, g, token, actor),
        0 <= i < g.seats.len(),
    ensures
        after == before,
        actor != Some(Actor::Host) ==> reply is Err,
        actor == Some(Actor::Host) ==> (reply matches Ok(v) && (v matches JsonView::Obj(fields)
            && fields.len() > 3 && fields[3].0 == "seats"@ && (
        fields[3].1 matches JsonView::Arr(rows) && rows.len() == g.seats.len() && ({
            let s = g.seats[i];
            &&& says(rows[i], "seat_id"@, number(s.id.0 as int))
            &&& says(rows[i], "alive"@, JsonView::Bool(s.alive))
            &&& says(rows[i], "poisoned"@, JsonView::Bool(s.poisoned))
            &&& says(rows[i], "is_drunk_outsider"@, JsonView::Bool(s.is_drunk_outsider))
            &&& s.true_character matches Some(c) ==> says(
                rows[i],
                "true_character"@,
                JsonView::Str(name_of(c)),
            )
            &&& s.believed_character matches Some(c) ==> says(
                rows[i],
                "believed_character"@,
                JsonView::Str(name_of(c)),
            )
        })))),
{
    view_names_differ();
    if actor == Some(Actor::Host) {
        let v = choose|v: HostStateView| #[trigger]
            v.shows(g) && reply == Ok::<JsonView, RpcErrorView>(host_state_reply(v));
        let row = v.seats@[i];
        assert(row.shows(g.seats[i]));
        let rows = v.seats@.map_values(
            |s: crate::tools::views::HostSeatView| host_seat_reply(s),
        );
        assert(rows[i] == host_seat_reply(row));
        let fields = host_seat_reply(row)->Obj_0;
        assert(fields[0] == ("seat_id"@, number(row.seat_id.0 as int)));
        assert(fields[2] == ("alive"@, JsonView::Bool(row.alive)));
        assert(fields[4] == (
            "true_character"@,
            super::replies::opt_text_json(crate::tools::opt_str(row.true_character)),
        ));
        assert(fields[5] == (
            "believed_character"@,
            super::replies::opt_text_json(crate::tools::opt_str(row.believed_character)),
        ));
        assert(fields[6] == ("poisoned"@, JsonView::Bool(row.poisoned)));
        assert(fields[7] == ("is_drunk_outsider"@, JsonView::Bool(row.is_drunk_outsider)));
    }
}

/// A new table is a lobby of living players with the names that were given, seated in their order;
/// the host's token opens it as the host and each player's token as that player.
pub proof fn new_tables_seat_the_named(
    before: GameStoreView,
    after: GameStoreView,
    resp: CreateGameResponse,
    names: Seq<String>,
    seed: u64,
    salt: Option<u64>,
    i: int,
)
    requires
        creates(before, after, resp, names, seed, salt),
        0 <= i < names.len() <= 256,
    ensures
        after.game(resp.game_id) matches Some(g) && {
            &&& g.id == resp.game_id
            &&& g.phase is Lobby && g.winner is None && g.seed == seed
            &&& g.seats.len() == names.len()
            &&& g.seats[i].id.0 == i && g.seats[i].display_name == names[i] && g.seats[i].alive
            &&& g.seats[i].true_character is None
            &&& g.tokens.actor(resp.host_token@) == Some(Actor::Host)
            &&& g.tokens.actor(resp.players@[i].player_token@) == Some(
                Actor::Player { seat: g.seats[i].id },
            )
            &&& resp.players@[i].name == names[i]
        },
        forall|other: GameId| other != resp.game_id ==> #[trigger] after.game(other) == before.game(
            other,
        ),
{
    let g = choose|g: GameView| #[trigger]
        is_created(resp, g, names, seed, salt) && after == before.inserted(g);
    inserted_game_is_found(before, g, GameId(0));
    assert forall|other: GameId| other != resp.game_id implies #[trigger] after.game(other)
        == before.game(other) by {
        inserted_game_is_found(before, g, other);
    }
    lobby_tokens_resolve(resp.host_token@, player_secrets(resp.players@), i);
    assert(player_secrets(resp.players@)[i] == resp.players@[i].player_token@);
    assert(resp.players@[i].seat_id == SeatId(i as u8));
}

/// A choice of the night is read as it is written: one target, or two in their order.
pub proof fn night_choices_are_read_as_written(args: JsonView, a: SeatId, b: SeatId)
    requires
        args.field("payload"@) is None,
        args.field("ack"@) is None,
        args.field("action"@) is None,
    ensures
        args.field("kind"@) is None && args.field("type"@) is None && names_seat(
            args,
            "target"@,
            a,
        ) ==> (night_payload_in(args) matches Ok(p) && p == (NightPayloadView::PickOne {
            target: a,
        })),
        args.field("kind"@) is None && args.field("type"@) is None && args.field("target"@) is None
            && args.items_at("targets"@) is None && names_seat(args, "a"@, a) && names_seat(
            args,
            "b"@,
            b,
        ) ==> (night_payload_in(args) matches Ok(p) && p == (NightPayloadView::PickTwo { a, b })),
        args.field("kind"@) == Some(JsonView::Str("pick_one"@)) && names_seat(args, "target"@, a)
            ==> (night_payload_in(args) matches Ok(p) && p == (NightPayloadView::PickOne {
            target: a,
        })),
        args.field("kind"@) == Some(JsonView::Str("pick_two"@)) && names_seat(args, "a"@, a)
            && names_seat(args, "b"@, b) ==> (night_payload_in(args) matches Ok(p) && p == (
        NightPayloadView::PickTwo { a, b })),
{
    reveal_strlit("pick_one");
    reveal_strlit("pick_two");
    reveal_strlit("ack");
    reveal_strlit("Ack");
    reveal_strlit("PickOne");
    reveal_strlit("PickTwo");
    assert("pick_one"@.len() == 8 && "pick_two"@.len() == 8 && "ack"@.len() == 3 && "Ack"@.len()
        == 3 && "PickOne"@.len() == 7 && "PickTwo"@.len() == 7);
    assert("pick_one"@[5] == 'o' && "pick_two"@[5] == 't');
}

/// A granted call is enveloped as no error with what was answered, a refused one as an error with
/// the words of the refusal, and arguments that cannot be read are a fault of the call itself.
pub proof fn envelopes_carry_the_answer(v: JsonView, e: RpcErrorView)
    ensures
        enveloped(Ok(v)) matches Ok(o) && says(o, "isError"@, JsonView::Bool(false)) && says(
            o,
            "structuredContent"@,
            v,
        ),
        e.code == -32602 ==> enveloped(Err(e)) == Err::<JsonView, RpcErrorView>(e),
        e.code != -32602 ==> (enveloped(Err(e)) matches Ok(o) && says(
            o,
            "isError"@,
            JsonView::Bool(true),
        )),
{
    let good = enveloped(Ok(v))->Ok_0->Obj_0;
    assert(good[1] == ("structuredContent"@, v));
    assert(good[2] == ("isError"@, JsonView::Bool(false)));
    if e.code != -32602 {
        let bad = enveloped(Err(e))->Ok_0->Obj_0;
        assert(bad[1] == ("isError"@, JsonView::Bool(true)));
    }
}

/// A response carries the number of its request, and either the result or the error.
pub proof fn responses_carry_their_number(id: JsonView, v: JsonView, e: RpcErrorView)
    ensures
        says(response(id, Ok(v)), "id"@, id),
        says(response(id, Ok(v)), "result"@, v),
        says(response(id, Err(e)), "id"@, id),
        response(id, Err(e)) matches JsonView::Obj(fields) && fields.len() == 3 && fields[2].0
            == "error"@ && says(fields[2].1, "code"@, number(e.code as int)) && says(
            fields[2].1,
            "message"@,
            JsonView::Str(e.message),
        ),
{
    let good = response(id, Ok(v))->Obj_0;
    assert(good[1] == ("id"@, id));
    assert(good[2] == ("result"@, v));
    let bad = response(id, Err(e))->Obj_0;
    assert(bad[1] == ("id"@, id));
    let inner = bad[2].1->Obj_0;
    assert(inner[0] == ("code"@, number(e.code as int)));
    assert(inner[1] == ("message"@, JsonView::Str(e.message)));
}

/// `tools/call` runs the tool that it names with the arguments that it gives.
pub proof fn named_tools_are_run(
    before: GameStoreView,
    params: JsonView,
    sheet: Option<Seq<char>>,
    after: GameStoreView,
    reply: Reply,
    name: Seq<char>,
    arguments: JsonView,
)
    requires
        dispatches(before, "tools/call"@, params, sheet, after, reply),
        params.text_at("name"@) == Some(name),
        params.field("arguments"@) == Some(arguments),
    ensures
        calls(before, name, arguments, sheet, after, reply),
{
    reveal_strlit("tools/call");
    reveal_strlit("initialize");
    reveal_strlit("notifications/initialized");
    reveal_strlit("initialized");
    reveal_strlit("ping");
    reveal_strlit("tools/list");
    assert("tools/call"@[0] == 't' && "tools/call"@.len() == 10 && "tools/call"@[6] == 'c');
    assert("initialize"@[0] == 'i' && "tools/list"@[6] == 'l');
    assert("initialized"@.len() == 11 && "notifications/initialized"@.len() == 25 && "ping"@.len()
        == 4);
}

/// `get_public_log` hands out every event that came after the cursor, with its number, and none
/// that came before, to everybody who holds a token.
pub proof fn logs_go_on_from_the_cursor(
    before: GameStoreView,
    args: JsonView,
    sheet: Option<Seq<char>>,
    after: GameStoreView,
    reply: Reply,
    id: GameId,
    g: GameView,
    token: Seq<char>,
    actor: Option<Actor>,
    cursor: u64,
    i: int,
)
    requires
        invokes(before, "get_public_log"@, args, sheet, after, reply),
        asked_of(before, args, id, g, token, actor),
        args.field("cursor"@) == Some(number(cursor as int)),
        0 <= i < g.public_log.events.len(),
    ensures
        after == before,
        actor is None ==> reply is Err,
        actor is Some ==> (reply matches Ok(v) && (v matches JsonView::Obj(fields)
            && fields.len() == 1 && fields[0].0 == "events"@ && (
        fields[0].1 matches JsonView::Arr(rows) && ({
            let (n, event) = g.public_log.events[i];
            let row = JsonView::Obj(seq![("id"@, number(n as int)), ("event"@, event_reply(event))]);
            &&& n > cursor ==> rows.contains(row)
            &&& forall|k: int|
                0 <= k < rows.len() ==> exists|m: u64|
                    #![trigger number(m as int)]
                    m > cursor && says(#[trigger] rows[k], "id"@, number(m as int))
        })))),
{
    view_names_differ();
    if actor is Some {
        let late = |e: (u64, PublicEventView)| e.0 > cursor;
        let events = g.public_log.since(cursor);
        let rows = (reply->Ok_0->Obj_0)[0].1->Arr_0;
        g.public_log.events.filter_lemma(late);
        let (n, event) = g.public_log.events[i];
        let row = JsonView::Obj(seq![("id"@, number(n as int)), ("event"@, event_reply(event))]);
        if n > cursor {
            assert(late(g.public_log.events[i]));
            assert(g.public_log.events.filter(late).contains(g.public_log.events[i]));
            assert(events.contains((n, event)));
            let k = events.index_of((n, event));
            assert(rows[k] == JsonView::object().with("id"@, number(n as int)).with(
                "event"@,
                event_reply(event),
            ));
            assert(rows[k]->Obj_0 =~= row->Obj_0);
        }
        assert forall|k: int| 0 <= k < rows.len() implies exists|m: u64|
            #![trigger number(m as int)]
            m > cursor && says(#[trigger] rows[k], "id"@, number(m as int)) by {
            let m = events[k].0;
            assert(late(events[k]));
            assert((rows[k]->Obj_0)[0] == ("id"@, number(m as int)));
            assert(m > cursor && says(rows[k], "id"@, number(m as int)));
        }
    }
}

/// `get_character_rules` hands out the sheet of the character that was named, and fails without
/// one.
pub proof fn sheets_are_handed_out(
    before: GameStoreView,
    args: JsonView,
    sheet: Option<Seq<char>>,
    after: GameStoreView,
    reply: Reply,
    c: Character,
)
    requires
        invokes(before, "get_character_rules"@, args, sheet, after, reply),
        args.field("character"@) == Some(JsonView::Str(name_of(c))),
    ensures
        after == before,
        sheet is None ==> reply is Err,
        sheet is Some ==> (reply matches Ok(v) && ({
            &&& says(v, "name"@, JsonView::Str(name_of(c)))
            &&& says(v, "text"@, JsonView::Str(sheet->0))
            &&& says(
                v,
                "team"@,
                JsonView::Str(if is_evil(Some(c)) { "Evil"@ } else { "Good"@ }),
            )
        })),
{
    view_names_differ();
    display_names_read_back(c);
    if sheet is Some {
        let fields = reply->Ok_0->Obj_0;
        assert(fields[0] == ("name"@, JsonView::Str(name_of(c))));
        assert(fields[2] == (
            "team"@,
            JsonView::Str(if is_evil(Some(c)) { "Evil"@ } else { "Good"@ }),
        ));
        assert(fields[4] == ("text"@, JsonView::Str(sheet->0)));
    }
}

} // verus!
