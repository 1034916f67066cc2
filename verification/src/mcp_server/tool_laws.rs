//! What a tool call does: what the arguments say is what happens, to the game they name, for the
//! holder of the token they carry.

use super::{invokes, Reply};
use crate::auth::Actor;
use crate::comms::PublicEventView;
use crate::game::ability::info_laws::{distinct_ids, found_where_it_stands, works};
use crate::game::ability::kill_laws::only_dies;
use crate::game::day::OpenNominationView;
use crate::game::day_laws::{
    all_heard, in_nominations, may_put_up, may_shoot, may_vote, nominations_open_a_vote,
    nominations_open_by_day, opening_events, passes_keep_the_ghost_vote, shots_are_spent,
    the_slayer_kills_the_imp, then_published, under_way, votes_count_as_cast,
};
use crate::game::ids::{GameId, SeatId};
use crate::game::laws::still_open_means_not_closed;
use crate::game::night::NightActionPayload;
use crate::game::night_laws::{awaits, the_monk_guards, the_poison_moves};
use crate::game::phase::{DayStage, NightStep, Phase};
use crate::game::state::GameView;
use crate::json::JsonView;
use crate::roles::Character;
use crate::store::{changed_game_is_found, GameStoreView};
use vstd::prelude::*;

verus! {

/// The names of the tools differ.
proof fn tool_names_differ()
    ensures
        "create_game"@.len() == 11 && "create_game"@[0] == 'c',
        "start_game"@.len() == 10 && "start_game"@[0] == 's',
        "get_public_state"@.len() == 16 && "get_public_state"@[0] == 'g',
        "get_public_log"@.len() == 14 && "get_public_log"@[0] == 'g',
        "get_private_state"@.len() == 17 && "get_private_state"@[0] == 'g',
        "get_character_rules"@.len() == 19 && "get_character_rules"@[0] == 'g',
        "get_host_state"@.len() == 14 && "get_host_state"@[0] == 'g',
        "say"@.len() == 3 && "say"@[0] == 's',
        "st_announce"@.len() == 11 && "st_announce"@[0] == 's',
        "night_action"@.len() == 12 && "night_action"@[0] == 'n',
        "day_action"@.len() == 10 && "day_action"@[0] == 'd',
        "nominate"@.len() == 8 && "nominate"@[0] == 'n',
        "vote"@.len() == 4 && "vote"@[0] == 'v',
        "pass_vote"@.len() == 9 && "pass_vote"@[0] == 'p',
        "open_nominations"@.len() == 16 && "open_nominations"@[0] == 'o',
        "close_vote"@.len() == 10 && "close_vote"@[0] == 'c',
        "end_nominations"@.len() == 15 && "end_nominations"@[0] == 'e',
        "skip_night_action"@.len() == 17 && "skip_night_action"@[0] == 's',
        "host_decide"@.len() == 11 && "host_decide"@[0] == 'h',
        "host_queue_lie"@.len() == 14 && "host_queue_lie"@[0] == 'h',
        "get_public_log"@[4] == 'p' && "get_host_state"@[4] == 'h',
{
    reveal_strlit("create_game");
    reveal_strlit("start_game");
    reveal_strlit("get_public_state");
    reveal_strlit("get_public_log");
    reveal_strlit("get_private_state");
    reveal_strlit("get_character_rules");
    reveal_strlit("get_host_state");
    reveal_strlit("say");
    reveal_strlit("st_announce");
    reveal_strlit("night_action");
    reveal_strlit("day_action");
    reveal_strlit("nominate");
    reveal_strlit("vote");
    reveal_strlit("pass_vote");
    reveal_strlit("open_nominations");
    reveal_strlit("close_vote");
    reveal_strlit("end_nominations");
    reveal_strlit("skip_night_action");
    reveal_strlit("host_decide");
    reveal_strlit("host_queue_lie");
}

/// The arguments name the game and carry the token of this actor, and the store holds the game.
pub open spec fn asked_of(
    store: GameStoreView,
    args: JsonView,
    id: GameId,
    g: GameView,
    token: Seq<char>,
    actor: Option<Actor>,
) -> bool {
    &&& args.field("game_id"@) == Some(JsonView::Int(id.0 as int))
    &&& args.field("token"@) == Some(JsonView::Str(token))
    &&& args.field("host_token"@) is None
    &&& store.game(id) == Some(g)
    &&& g.tokens.actor(token) == actor
}

/// The seat number under a key.
pub open spec fn names_seat(args: JsonView, key: Seq<char>, seat: SeatId) -> bool {
    args.field(key) == Some(JsonView::Int(seat.0 as int))
}

/// The call was granted: the game moved on to `h`, and every other game is as it was.
pub open spec fn moved_to(
    before: GameStoreView,
    after: GameStoreView,
    id: GameId,
    h: GameView,
    reply: Reply,
) -> bool {
    &&& reply is Ok
    &&& after.game(id) == Some(h)
    &&& forall|other: GameId| other != id ==> #[trigger] after.game(other) == before.game(other)
}

/// The call was refused and changed nothing.
pub open spec fn was_refused(before: GameStoreView, after: GameStoreView, reply: Reply) -> bool {
    reply is Err && forall|other: GameId| #[trigger] after.game(other) == before.game(other)
}

proof fn one_game_changes(before: GameStoreView, id: GameId, g: GameView, h: GameView)
    requires
        before.game(id) == Some(g),
    ensures
        before.with_game(id, h).game(id) == Some(h),
        forall|other: GameId|
            other != id ==> #[trigger] before.with_game(id, h).game(other) == before.game(other),
{
    assert forall|other: GameId| other != id implies #[trigger] before.with_game(id, h).game(other)
        == before.game(other) by {
        changed_game_is_found(before, id, h, other);
    }
    changed_game_is_found(before, id, h, GameId(0));
}

/// `vote` casts the caller's ballot as the arguments say: on that nominee, with that answer. It is
/// granted exactly to whom the vote is open.
pub proof fn votes_are_cast_as_asked(
    before: GameStoreView,
    args: JsonView,
    sheet: Option<Seq<char>>,
    after: GameStoreView,
    reply: Reply,
    id: GameId,
    g: GameView,
    token: Seq<char>,
    v: int,
    nominee: SeatId,
    support: bool,
)
    requires
        invokes(before, "vote"@, args, sheet, after, reply),
        distinct_ids(g.seats),
        0 <= v < g.seats.len(),
        asked_of(before, args, id, g, token, Some(Actor::Player { seat: g.seats[v].id })),
        names_seat(args, "nominee"@, nominee),
        args.field("support"@) == Some(JsonView::Bool(support)),
        g.current_nomination matches Some(open) ==> open.votes.len() < u32::MAX - 1,
    ensures
        !may_vote(g, v, nominee, support) ==> was_refused(before, after, reply),
        may_vote(g, v, nominee, support) ==> exists|h: GameView|
            {
                let open = g.current_nomination->0;
                let votes = open.votes.push((g.seats[v].id, support));
                &&& #[trigger] moved_to(before, after, id, h, reply)
                &&& then_published(
                    g,
                    h,
                    0,
                    PublicEventView::VoteCast { seat: g.seats[v].id, nominee, support },
                )
                &&& h.current_nomination is Some ==> h.current_nomination == Some(
                    OpenNominationView { votes, ..open },
                )
            },
{
    tool_names_differ();
    votes_count_as_cast(g, v, nominee, support);
    let outcome = g.voted(g.seats[v].id, nominee, support);
    if let Ok(h) = outcome {
        one_game_changes(before, id, g, h);
        if h.current_nomination is Some {
            still_open_means_not_closed(g, g.seats[v].id, nominee, support);
        }
        assert(moved_to(before, after, id, h, reply));
    } else {
        one_game_changes(before, id, g, g);
    }
}

/// `nominate` puts up the player the arguments name, in the caller's name.
pub proof fn nominations_are_made_as_asked(
    before: GameStoreView,
    args: JsonView,
    sheet: Option<Seq<char>>,
    after: GameStoreView,
    reply: Reply,
    id: GameId,
    g: GameView,
    token: Seq<char>,
    b: int,
    t: int,
)
    requires
        invokes(before, "nominate"@, args, sheet, after, reply),
        distinct_ids(g.seats),
        0 <= b < g.seats.len(),
        0 <= t < g.seats.len(),
        asked_of(before, args, id, g, token, Some(Actor::Player { seat: g.seats[b].id })),
        names_seat(args, "target"@, g.seats[t].id),
        g.seats[t].true_character != Some(Character::Virgin) || g.seats[t].virgin_ability_used,
    ensures
        !may_put_up(g, b, t) ==> was_refused(before, after, reply),
        may_put_up(g, b, t) ==> exists|h: GameView| #[trigger]
            moved_to(before, after, id, h, reply) && then_published(
                g,
                h,
                opening_events(g),
                PublicEventView::Nominated { by: g.seats[b].id, target: g.seats[t].id },
            ),
{
    tool_names_differ();
    nominations_open_a_vote(g, b, t);
    if let Ok(h) = g.nominated(g.seats[b].id, g.seats[t].id) {
        one_game_changes(before, id, g, h);
        assert(moved_to(before, after, id, h, reply));
    } else {
        one_game_changes(before, id, g, g);
    }
}

/// `pass_vote` passes for the caller: the pass is noted and no ballot is cast.
pub proof fn passes_are_noted_as_asked(
    before: GameStoreView,
    args: JsonView,
    sheet: Option<Seq<char>>,
    after: GameStoreView,
    reply: Reply,
    id: GameId,
    g: GameView,
    token: Seq<char>,
    v: int,
)
    requires
        invokes(before, "pass_vote"@, args, sheet, after, reply),
        distinct_ids(g.seats),
        0 <= v < g.seats.len(),
        asked_of(before, args, id, g, token, Some(Actor::Player { seat: g.seats[v].id })),
    ensures
        g.seats[v].alive || !g.seats[v].ghost_vote_available || !under_way(g) || !in_nominations(g)
            ==> was_refused(before, after, reply),
        reply is Ok ==> exists|h: GameView|
            {
                let open = g.current_nomination->0;
                let passes = open.passes.push(g.seats[v].id);
                &&& #[trigger] moved_to(before, after, id, h, reply)
                &&& !all_heard(g.seats, open.votes, passes) ==> h == (GameView {
                    current_nomination: Some(OpenNominationView { passes, ..open }),
                    ..g
                })
            },
{
    tool_names_differ();
    passes_keep_the_ghost_vote(g, v);
    if let Ok(h) = g.passed(g.seats[v].id) {
        one_game_changes(before, id, g, h);
        assert(moved_to(before, after, id, h, reply));
    } else {
        one_game_changes(before, id, g, g);
    }
}

/// `say` publishes the words under the caller's name, by day and to all.
pub proof fn words_are_said_as_asked(
    before: GameStoreView,
    args: JsonView,
    sheet: Option<Seq<char>>,
    after: GameStoreView,
    reply: Reply,
    id: GameId,
    g: GameView,
    token: Seq<char>,
    s: int,
    text: Seq<char>,
)
    requires
        invokes(before, "say"@, args, sheet, after, reply),
        distinct_ids(g.seats),
        0 <= s < g.seats.len(),
        asked_of(before, args, id, g, token, Some(Actor::Player { seat: g.seats[s].id })),
        args.field("text"@) == Some(JsonView::Str(text)),
    ensures
        !(g.phase is Day) ==> was_refused(before, after, reply),
        g.phase is Day ==> exists|h: GameView| #[trigger]
            moved_to(before, after, id, h, reply) && then_published(
                g,
                h,
                0,
                PublicEventView::Chat {
                    seat: g.seats[s].id,
                    name: g.seats[s].display_name@,
                    text,
                    to: None,
                },
            ) && h == (GameView { public_log: h.public_log, ..g }) && h.public_log.events.len()
                == g.public_log.events.len() + 1,
{
    tool_names_differ();
    found_where_it_stands(g.seats, s);
    if let Ok(h) = g.said(g.seats[s].id, text, None) {
        one_game_changes(before, id, g, h);
        assert(moved_to(before, after, id, h, reply));
    } else {
        one_game_changes(before, id, g, g);
    }
}

/// `st_announce` publishes the host's words, and nobody else's.
pub proof fn announcements_are_made_as_asked(
    before: GameStoreView,
    args: JsonView,
    sheet: Option<Seq<char>>,
    after: GameStoreView,
    reply: Reply,
    id: GameId,
    g: GameView,
    token: Seq<char>,
    actor: Option<Actor>,
    text: Seq<char>,
)
    requires
        invokes(before, "st_announce"@, args, sheet, after, reply),
        asked_of(before, args, id, g, token, actor),
        args.field("text"@) == Some(JsonView::Str(text)),
    ensures
        actor != Some(Actor::Host) ==> was_refused(before, after, reply),
        actor == Some(Actor::Host) ==> exists|h: GameView| #[trigger]
            moved_to(before, after, id, h, reply) && then_published(
                g,
                h,
                0,
                PublicEventView::StorytellerAnnounce { text },
            ) && h == (GameView { public_log: h.public_log, ..g }) && h.public_log.events.len()
                == g.public_log.events.len() + 1,
{
    tool_names_differ();
    let h = g.announce(text);
    if actor == Some(Actor::Host) {
        one_game_changes(before, id, g, h);
        assert(moved_to(before, after, id, h, reply));
    } else {
        one_game_changes(before, id, g, g);
    }
}

/// `host_queue_lie` puts the host's text behind the others, and nobody else's.
pub proof fn lies_are_queued_as_asked(
    before: GameStoreView,
    args: JsonView,
    sheet: Option<Seq<char>>,
    after: GameStoreView,
    reply: Reply,
    id: GameId,
    g: GameView,
    token: Seq<char>,
    actor: Option<Actor>,
    text: Seq<char>,
)
    requires
        invokes(before, "host_queue_lie"@, args, sheet, after, reply),
        asked_of(before, args, id, g, token, actor),
        args.field("text"@) == Some(JsonView::Str(text)),
    ensures
        actor != Some(Actor::Host) ==> was_refused(before, after, reply),
        actor == Some(Actor::Host) ==> moved_to(
            before,
            after,
            id,
            GameView { host_lie_queue: g.host_lie_queue.push(text), ..g },
            reply,
        ),
{
    tool_names_differ();
    let h = GameView { host_lie_queue: g.host_lie_queue.push(text), ..g };
    one_game_changes(before, id, g, h);
    one_game_changes(before, id, g, g);
}

/// `day_action` fires the caller's shot at the player the arguments name: it is granted exactly to
/// whom the shot is left, it is spent, and a working Slayer's shot kills the Imp.
pub proof fn shots_are_fired_as_asked(
    before: GameStoreView,
    args: JsonView,
    sheet: Option<Seq<char>>,
    after: GameStoreView,
    reply: Reply,
    id: GameId,
    g: GameView,
    token: Seq<char>,
    s: int,
    t: int,
)
    requires
        invokes(before, "day_action"@, args, sheet, after, reply),
        distinct_ids(g.seats),
        0 <= s < g.seats.len(),
        0 <= t < g.seats.len(),
        asked_of(before, args, id, g, token, Some(Actor::Player { seat: g.seats[s].id })),
        args.field("payload"@) is None && args.field("action"@) is None && args.field("kind"@)
            is None,
        names_seat(args, "target"@, g.seats[t].id),
    ensures
        !may_shoot(g, s) ==> was_refused(before, after, reply),
        may_shoot(g, s) ==> exists|h: GameView|
            {
                &&& #[trigger] moved_to(before, after, id, h, reply)
                &&& h.seats[s].slayer_used
                &&& g.seats[s].true_character == Some(Character::Slayer) && works(g.seats[s])
                    && g.seats[t].alive && g.seats[t].true_character == Some(Character::Imp)
                    ==> only_dies(g.seats, h.seats, t)
            },
{
    tool_names_differ();
    reveal_strlit("slay");
    shots_are_spent(g, s, t);
    if let Ok(h) = g.slew(g.seats[s].id, g.seats[t].id) {
        one_game_changes(before, id, g, h);
        assert(moved_to(before, after, id, h, reply));
        if g.seats[s].true_character == Some(Character::Slayer) && works(g.seats[s])
            && g.seats[t].alive && g.seats[t].true_character == Some(Character::Imp) {
            the_slayer_kills_the_imp(g, s, t);
        }
    } else {
        one_game_changes(before, id, g, g);
    }
}

/// `night_action` makes the caller's choice as the arguments say: a working Poisoner's target is
/// poisoned and nobody else, a working Monk's target is guarded while the night lasts.
pub proof fn choices_are_made_as_asked(
    before: GameStoreView,
    args: JsonView,
    sheet: Option<Seq<char>>,
    after: GameStoreView,
    reply: Reply,
    id: GameId,
    g: GameView,
    token: Seq<char>,
    p: int,
    t: int,
)
    requires
        invokes(before, "night_action"@, args, sheet, after, reply),
        distinct_ids(g.seats),
        0 <= p < g.seats.len(),
        0 <= t < g.seats.len(),
        asked_of(before, args, id, g, token, Some(Actor::Player { seat: g.seats[p].id })),
        args.field("payload"@) is None && args.field("type"@) is None && args.field("ack"@) is None
            && args.field("action"@) is None && args.field("kind"@) is None,
        names_seat(args, "target"@, g.seats[t].id),
        works(g.seats[p]),
    ensures
        awaits(g, NightStep::Poisoner { seat: g.seats[p].id }, g.seats[p].id) ==> exists|
            h: GameView,
        | #[trigger]
            moved_to(before, after, id, h, reply) && h.seats.len() == g.seats.len() && forall|
                i: int,
            |
                0 <= i < g.seats.len() ==> (#[trigger] h.seats[i]).poisoned == (i == t),
        awaits(g, NightStep::Monk { seat: g.seats[p].id }, g.seats[p].id) && t != p
            && g.seats[t].alive ==> exists|h: GameView| #[trigger]
            moved_to(before, after, id, h, reply) && (h.phase is FirstNight || h.phase is Night
                ==> h.seats[t].monk_protected_tonight),
        !(g.pending_night matches Some(w) && w.seat == g.seats[p].id) ==> was_refused(
            before,
            after,
            reply,
        ),
{
    tool_names_differ();
    let seat = g.seats[p].id;
    let choice = NightActionPayload::PickOne { target: g.seats[t].id };
    let read = super::payload_of(super::args::NightPayloadView::PickOne { target: g.seats[t].id });
    assert(choice@ == super::args::NightPayloadView::PickOne { target: g.seats[t].id });
    assert(read@ == choice@);
    assert(read == choice);
    if awaits(g, NightStep::Poisoner { seat }, seat) {
        the_poison_moves(g, p, t);
    }
    if awaits(g, NightStep::Monk { seat }, seat) {
        the_monk_guards(g, p, t);
    }
    if let Ok(h) = g.night_acted(seat, choice) {
        one_game_changes(before, id, g, h);
        assert(moved_to(before, after, id, h, reply));
    } else {
        one_game_changes(before, id, g, g);
    }
}

/// `open_nominations` is for the host, and moves a day of discussion on to its nominations.
pub proof fn nominations_open_as_asked(
    before: GameStoreView,
    args: JsonView,
    sheet: Option<Seq<char>>,
    after: GameStoreView,
    reply: Reply,
    id: GameId,
    g: GameView,
    token: Seq<char>,
    actor: Option<Actor>,
)
    requires
        invokes(before, "open_nominations"@, args, sheet, after, reply),
        asked_of(before, args, id, g, token, actor),
    ensures
        ({
            let open_now = under_way(g) && (g.phase matches Phase::Day {
                stage: DayStage::Discussion,
                ..
            }) && g.current_nomination is None;
            &&& actor != Some(Actor::Host) || !open_now ==> was_refused(before, after, reply)
            &&& actor == Some(Actor::Host) && open_now ==> exists|h: GameView| #[trigger]
                moved_to(before, after, id, h, reply) && in_nominations(h) && h.seats == g.seats
        }),
{
    tool_names_differ();
    nominations_open_by_day(g);
    if let Ok(h) = g.host_request(token, g.nominations_opened()) {
        one_game_changes(before, id, g, h);
        assert(moved_to(before, after, id, h, reply));
    } else {
        one_game_changes(before, id, g, g);
    }
}

/// What only the Storyteller may do is refused to everybody else and then changes nothing.
pub proof fn only_the_host_rules(
    before: GameStoreView,
    name: Seq<char>,
    args: JsonView,
    sheet: Option<Seq<char>>,
    after: GameStoreView,
    reply: Reply,
    id: GameId,
    g: GameView,
    token: Seq<char>,
    actor: Option<Actor>,
)
    requires
        invokes(before, name, args, sheet, after, reply),
        asked_of(before, args, id, g, token, actor),
        actor != Some(Actor::Host),
        name == "start_game"@ || name == "st_announce"@ || name == "open_nominations"@ || name
            == "close_vote"@ || name == "end_nominations"@ || name == "skip_night_action"@ || name
            == "host_decide"@ || name == "host_queue_lie"@ || name == "get_host_state"@,
    ensures
        was_refused(before, after, reply),
{
    tool_names_differ();
    one_game_changes(before, id, g, g);
}

/// What only players may do is refused to the Storyteller and to strangers, and then changes
/// nothing.
pub proof fn only_players_play(
    before: GameStoreView,
    name: Seq<char>,
    args: JsonView,
    sheet: Option<Seq<char>>,
    after: GameStoreView,
    reply: Reply,
    id: GameId,
    g: GameView,
    token: Seq<char>,
    actor: Option<Actor>,
)
    requires
        invokes(before, name, args, sheet, after, reply),
        asked_of(before, args, id, g, token, actor),
        !(actor matches Some(Actor::Player { .. })),
        name == "say"@ || name == "night_action"@ || name == "day_action"@ || name == "nominate"@
            || name == "vote"@ || name == "pass_vote"@ || name == "get_private_state"@,
    ensures
        was_refused(before, after, reply),
{
    tool_names_differ();
    one_game_changes(before, id, g, g);
}

/// A call on a game that is not there is refused and changes nothing.
pub proof fn unknown_games_are_refused(
    before: GameStoreView,
    name: Seq<char>,
    args: JsonView,
    sheet: Option<Seq<char>>,
    after: GameStoreView,
    reply: Reply,
    id: GameId,
)
    requires
        invokes(before, name, args, sheet, after, reply),
        args.field("game_id"@) == Some(JsonView::Int(id.0 as int)),
        before.game(id) is None,
        name != "create_game"@ && name != "get_character_rules"@,
    ensures
        reply is Err,
        after == before,
{
    tool_names_differ();
}

} // verus!
