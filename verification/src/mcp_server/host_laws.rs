//! What the Storyteller's tool calls do.

use super::tool_laws::{asked_of, moved_to, names_seat, was_refused};
use super::{invokes, opts_of, Reply};
use crate::auth::Actor;
use crate::game::ability::info_laws::distinct_ids;
use crate::game::ability::kill_laws::{became_the_imp, is_living_minion, is_safe, only_dies};
use crate::game::day_laws::{in_nominations, under_way, yes_count};
use crate::game::host_laws::{
    hosts_pick_the_heir, hosts_redirect_the_attack, same_players, skipped_attacks_kill_nobody,
};
use crate::game::ids::{GameId, SeatId};
use crate::game::night_laws::by_night;
use crate::game::phase::{DayStage, Phase};
use crate::game::st_policy::{
    HostDecision, MayorRedirectChoice, PendingHostDecision, RegistrationMode,
};
use crate::game::start_laws::{given_characters_are_dealt, holds, numbered_seats};
use crate::game::state::{GameView, RoleAssignment};
use crate::game::table_laws::{
    can_go_on, nominations_end_with_the_day, votes_are_closed_and_counted,
};
use crate::json::JsonView;
use crate::mcp_server::args::{assignment_in, bluff_in, face_in, host_decision_in, start_opts_in};
use crate::mcp_server::names::display_names_read_back;
use crate::roles::data::name_of;
use crate::roles::Character;
use crate::store::{changed_game_is_found, GameStoreView};
use vstd::prelude::*;

verus! {

proof fn host_tool_names_differ()
    ensures
        "create_game"@.len() == 11 && "create_game"@[0] == 'c',
        "start_game"@.len() == 10 && "start_game"@[0] == 's',
        "get_public_state"@.len() == 16 && "get_public_state"@[0] == 'g',
        "get_public_log"@.len() == 14,
        "get_private_state"@.len() == 17 && "get_private_state"@[0] == 'g',
        "get_character_rules"@.len() == 19,
        "get_host_state"@.len() == 14,
        "say"@.len() == 3,
        "st_announce"@.len() == 11 && "st_announce"@[0] == 's',
        "night_action"@.len() == 12,
        "day_action"@.len() == 10 && "day_action"@[0] == 'd',
        "nominate"@.len() == 8,
        "vote"@.len() == 4,
        "pass_vote"@.len() == 9,
        "open_nominations"@.len() == 16 && "open_nominations"@[0] == 'o',
        "close_vote"@.len() == 10 && "close_vote"@[0] == 'c',
        "end_nominations"@.len() == 15,
        "skip_night_action"@.len() == 17 && "skip_night_action"@[0] == 's',
        "host_decide"@.len() == 11 && "host_decide"@[0] == 'h',
        "host_queue_lie"@.len() == 14,
{
    reveal_strlit("create_game");
    reveal_strlit("start_game");
    reveal_strlit("get_public_state");
    reveal_strlit("get_public_log");
    reveal_strlit("get_private_state");
    reveal_strlit("get_character_rules");
    reveal_strlit("get_host_state");
    reveal_strlit("say");
    reveal_strlit("st_announce");
    reveal_strlit("night_action");
    reveal_strlit("day_action");
    reveal_strlit("nominate");
    reveal_strlit("vote");
    reveal_strlit("pass_vote");
    reveal_strlit("open_nominations");
    reveal_strlit("close_vote");
    reveal_strlit("end_nominations");
    reveal_strlit("skip_night_action");
    reveal_strlit("host_decide");
    reveal_strlit("host_queue_lie");
}

proof fn only_that_game_changes(before: GameStoreView, id: GameId, h: GameView)
    requires
        before.game(id) is Some,
    ensures
        before.with_game(id, h).game(id) == Some(h),
        forall|other: GameId|
            other != id ==> #[trigger] before.with_game(id, h).game(other) == before.game(other),
{
    assert forall|other: GameId| other != id implies #[trigger] before.with_game(id, h).game(other)
        == before.game(other) by {
        changed_game_is_found(before, id, h, other);
    }
    changed_game_is_found(before, id, h, GameId(0));
}

/// The words of a decision mean what they say: the Mayor, nobody, or the player that is named; and
/// a starpass goes to the seat that is named.
pub proof fn decisions_are_read_as_written(args: JsonView, seat: SeatId)
    ensures
        args.text_at("type"@) == Some("mayor_redirect"@) ==> {
            &&& args.text_at("choice"@) == Some("kill_mayor"@) ==> (host_decision_in(
                args,
            ) matches Ok(d) && d == (HostDecision::MayorRedirect {
                choice: MayorRedirectChoice::KillMayor,
            }))
            &&& args.text_at("choice"@) == Some("nobody"@) ==> (host_decision_in(
                args,
            ) matches Ok(d) && d == (HostDecision::MayorRedirect {
                choice: MayorRedirectChoice::Nobody,
            }))
            &&& args.text_at("choice"@) == Some("kill_other"@) && names_seat(args, "target"@, seat)
                ==> (host_decision_in(args) matches Ok(d) && d == (HostDecision::MayorRedirect {
                choice: MayorRedirectChoice::KillOther { target: seat },
            }))
        },
        args.text_at("type"@) == Some("starpass_pick"@) && names_seat(args, "target"@, seat) ==> (
        host_decision_in(args) matches Ok(d) && d == (HostDecision::StarpassPick { minion: seat })),
{
    reveal_strlit("mayor_redirect");
    reveal_strlit("starpass_pick");
    reveal_strlit("kill_mayor");
    reveal_strlit("kill_other");
    reveal_strlit("nobody");
    assert("mayor_redirect"@.len() == 14 && "starpass_pick"@.len() == 13);
    assert("kill_mayor"@.len() == 10 && "kill_other"@.len() == 10 && "nobody"@.len() == 6);
    assert("kill_mayor"@[5] == 'm' && "kill_other"@[5] == 'o');
}

/// `host_decide` carries out the decision on an attack on the Mayor that the arguments name.
pub proof fn redirections_are_made_as_asked(
    before: GameStoreView,
    args: JsonView,
    sheet: Option<Seq<char>>,
    after: GameStoreView,
    reply: Reply,
    id: GameId,
    g: GameView,
    token: Seq<char>,
    m: int,
    t: int,
)
    requires
        invokes(before, "host_decide"@, args, sheet, after, reply),
        asked_of(before, args, id, g, token, Some(Actor::Host)),
        distinct_ids(g.seats),
        0 <= m < g.seats.len(),
        0 <= t < g.seats.len(),
        g.seats[m].alive && g.seats[m].true_character == Some(Character::Mayor),
        g.seats[t].true_character != Some(Character::Imp),
        g.pending_host matches Some(PendingHostDecision::MayorRedirect { mayor, .. }) && mayor
            == g.seats[m].id,
        args.text_at("type"@) == Some("mayor_redirect"@),
        names_seat(args, "target"@, g.seats[t].id),
    ensures
        args.text_at("choice"@) == Some("kill_mayor"@) ==> exists|h: GameView| #[trigger]
            moved_to(before, after, id, h, reply) && only_dies(g.seats, h.seats, m),
        args.text_at("choice"@) == Some("nobody"@) ==> exists|h: GameView| #[trigger]
            moved_to(before, after, id, h, reply) && same_players(g.seats, h.seats),
        args.text_at("choice"@) == Some("kill_other"@) && !is_safe(g.seats[t]) ==> exists|
            h: GameView,
        | #[trigger]
            moved_to(before, after, id, h, reply) && only_dies(g.seats, h.seats, t),
{
    host_tool_names_differ();
    decisions_are_read_as_written(args, g.seats[t].id);
    if let Ok(HostDecision::MayorRedirect { choice }) = host_decision_in(args) {
        if choice matches MayorRedirectChoice::KillOther { target } ==> target == g.seats[t].id {
            hosts_redirect_the_attack(g, m, t, choice);
            let h = g.host_decided(HostDecision::MayorRedirect { choice })->Ok_0;
            only_that_game_changes(before, id, h);
            assert(moved_to(before, after, id, h, reply));
        }
    }
}

/// `host_decide` passes the star to the Minion that the arguments name.
pub proof fn heirs_are_picked_as_asked(
    before: GameStoreView,
    args: JsonView,
    sheet: Option<Seq<char>>,
    after: GameStoreView,
    reply: Reply,
    id: GameId,
    g: GameView,
    token: Seq<char>,
    d: int,
    k: int,
)
    requires
        invokes(before, "host_decide"@, args, sheet, after, reply),
        asked_of(before, args, id, g, token, Some(Actor::Host)),
        distinct_ids(g.seats),
        0 <= d < g.seats.len(),
        0 <= k < g.seats.len(),
        d != k,
        g.seats[d].alive,
        is_living_minion(g.seats[k]),
        g.pending_host matches Some(PendingHostDecision::StarpassPick { dead_imp, .. }) && dead_imp
            == g.seats[d].id,
        args.text_at("type"@) == Some("starpass_pick"@),
        names_seat(args, "target"@, g.seats[k].id),
    ensures
        g.pending_host->0->StarpassPick_minions@.contains(g.seats[k].id) ==> exists|h: GameView|
            #[trigger]
            moved_to(before, after, id, h, reply) && only_dies(g.seats, h.seats, d)
                && became_the_imp(g.seats[k], h.seats[k]),
        !g.pending_host->0->StarpassPick_minions@.contains(g.seats[k].id) ==> was_refused(
            before,
            after,
            reply,
        ),
{
    host_tool_names_differ();
    decisions_are_read_as_written(args, g.seats[k].id);
    hosts_pick_the_heir(g, d, k);
    let r = g.host_decided(HostDecision::StarpassPick { minion: g.seats[k].id });
    if let Ok(h) = r {
        only_that_game_changes(before, id, h);
        assert(moved_to(before, after, id, h, reply));
    } else {
        only_that_game_changes(before, id, g);
    }
}

/// `skip_night_action` skips what the night waits for: an attack on the Mayor then kills nobody,
/// and a wake is settled by a choice of its own seat. With nothing waiting it is refused.
pub proof fn skips_are_made_as_asked(
    before: GameStoreView,
    args: JsonView,
    sheet: Option<Seq<char>>,
    after: GameStoreView,
    reply: Reply,
    id: GameId,
    g: GameView,
    token: Seq<char>,
)
    requires
        invokes(before, "skip_night_action"@, args, sheet, after, reply),
        asked_of(before, args, id, g, token, Some(Actor::Host)),
    ensures
        g.pending_host is None && g.pending_night is None ==> was_refused(before, after, reply),
        g.pending_host is None && !by_night(g) ==> reply is Err,
        (g.pending_host matches Some(PendingHostDecision::MayorRedirect { .. })) ==> exists|
            h: GameView,
        | #[trigger]
            moved_to(before, after, id, h, reply) && same_players(g.seats, h.seats)
                && h.pending_host is None,
{
    host_tool_names_differ();
    crate::game::host_laws::skipping_chooses_for_the_woken(g, token);
    let h = g.skipped(token).0;
    only_that_game_changes(before, id, h);
    if g.pending_host matches Some(PendingHostDecision::MayorRedirect { .. }) {
        skipped_attacks_kill_nobody(g);
        assert(moved_to(before, after, id, h, reply));
    }
}

/// `close_vote` closes the open vote and counts it; without one it is refused.
pub proof fn votes_close_as_asked(
    before: GameStoreView,
    args: JsonView,
    sheet: Option<Seq<char>>,
    after: GameStoreView,
    reply: Reply,
    id: GameId,
    g: GameView,
    token: Seq<char>,
)
    requires
        invokes(before, "close_vote"@, args, sheet, after, reply),
        asked_of(before, args, id, g, token, Some(Actor::Host)),
        g.current_nomination matches Some(open) ==> open.votes.len() < u32::MAX,
    ensures
        ({
            let open_now = under_way(g) && in_nominations(g) && g.current_nomination is Some;
            &&& !open_now ==> was_refused(before, after, reply)
            &&& open_now ==> reply is Ok
            &&& open_now && (exists|i: int, j: int| #[trigger] can_go_on(g, i, j)) ==> exists|
                h: GameView,
            |
                {
                    &&& #[trigger] moved_to(before, after, id, h, reply)
                    &&& h.current_nomination is None
                    &&& h.closed_nominations.len() == g.closed_nominations.len() + 1
                    &&& h.closed_nominations.last().target == g.current_nomination->0.target
                    &&& h.closed_nominations.last().yes_votes == yes_count(
                        g.current_nomination->0.votes,
                    )
                }
        }),
{
    host_tool_names_differ();
    votes_are_closed_and_counted(g);
    if let Ok(h) = g.vote_closed() {
        only_that_game_changes(before, id, h);
        assert(moved_to(before, after, id, h, reply));
    } else {
        only_that_game_changes(before, id, g);
    }
}

/// `end_nominations` ends the day in its nominations; at any other time it is refused.
pub proof fn days_end_as_asked(
    before: GameStoreView,
    args: JsonView,
    sheet: Option<Seq<char>>,
    after: GameStoreView,
    reply: Reply,
    id: GameId,
    g: GameView,
    token: Seq<char>,
    day: u32,
)
    requires
        invokes(before, "end_nominations"@, args, sheet, after, reply),
        asked_of(before, args, id, g, token, Some(Actor::Host)),
    ensures
        !(under_way(g) && in_nominations(g)) ==> was_refused(before, after, reply),
        under_way(g) && g.phase == (Phase::Day { day, stage: DayStage::Nominations })
            ==> moved_to(before, after, id, g.day_closed(day), reply),
{
    host_tool_names_differ();
    nominations_end_with_the_day(g, day);
    if let Ok(h) = g.nominations_ended() {
        only_that_game_changes(before, id, h);
    } else {
        only_that_game_changes(before, id, g);
    }
}

/// An entry of the list of characters: the seat it numbers gets the character it names, and a
/// Drunk the face it names.
pub proof fn assignments_are_read_as_written(
    item: JsonView,
    seat: SeatId,
    c: Character,
    face: Character,
)
    requires
        names_seat(item, "seat"@, seat),
        item.field("character"@) == Some(JsonView::Str(name_of(c))),
    ensures
        c != Character::Drunk && item.field("believed"@) is None && item.field(
            "believed_character"@,
        ) is None ==> (assignment_in(item) matches Ok(a) && a == (RoleAssignment {
            seat,
            true_character: c,
            believed_character: None,
        })),
        c == Character::Drunk && item.field("believed"@) == Some(JsonView::Str(name_of(face)))
            && crate::game::start_laws::type_is_townsfolk(face) ==> (assignment_in(
            item,
        ) matches Ok(a) && a == (RoleAssignment {
            seat,
            true_character: Character::Drunk,
            believed_character: Some(face),
        })),
        c == Character::Drunk && item.field("believed"@) == Some(JsonView::Str(name_of(face)))
            && !crate::game::start_laws::type_is_townsfolk(face) ==> assignment_in(item) is Err,
{
    display_names_read_back(c);
    display_names_read_back(face);
}

/// An entry of the list of faces, and one of the list of bluffs.
pub proof fn overrides_are_read_as_written(item: JsonView, seat: SeatId, c: Character)
    ensures
        names_seat(item, "seat"@, seat) && item.field("face"@) == Some(JsonView::Str(name_of(c)))
            ==> (face_in(item) matches Ok(f) && f == (seat, c)),
        item == JsonView::Str(name_of(c)) ==> (bluff_in(item) matches Ok(b) && b == c),
{
    display_names_read_back(c);
}

/// The options of a start are those of the arguments: without any, everything is drawn and spies
/// register by chance.
pub proof fn bare_starts_draw_everything(args: JsonView)
    requires
        args.field("assignments"@) is None,
        args.field("drunk_faces"@) is None,
        args.field("red_herring"@) is None,
        args.field("demon_bluffs"@) is None,
        args.field("registration_mode"@) is None,
    ensures
        start_opts_in(args) matches Ok(o) && o.assignments is None && o.drunk_faces is None
            && o.red_herring is None && o.demon_bluffs is None && o.registration_mode
            == RegistrationMode::Random,
{
}

/// `start_game` deals the characters that the arguments list to the seats they name, and the game
/// is no longer in its lobby; in any other phase it is refused.
pub proof fn starts_are_made_as_asked(
    before: GameStoreView,
    args: JsonView,
    sheet: Option<Seq<char>>,
    after: GameStoreView,
    reply: Reply,
    id: GameId,
    g: GameView,
    token: Seq<char>,
    list: Seq<RoleAssignment>,
)
    requires
        invokes(before, "start_game"@, args, sheet, after, reply),
        asked_of(before, args, id, g, token, Some(Actor::Host)),
        numbered_seats(g.seats),
        start_opts_in(args) matches Ok(o) && o.assignments == Some(list) && o.drunk_faces is None,
        exists|o: crate::game::setup::StartOpts| start_opts_in(args) == Ok::<
            crate::mcp_server::args::StartOptsView,
            crate::mcp_server::args::RpcErrorView,
        >(#[trigger] o@),
    ensures
        !(g.phase is Lobby) ==> was_refused(before, after, reply),
        reply is Ok ==> exists|h: GameView| #[trigger]
            moved_to(before, after, id, h, reply) && h.seats.len() == g.seats.len() && forall|k: int|
                0 <= k < list.len() ==> holds(
                    g.seats[(#[trigger] list[k]).seat.0 as int],
                    h.seats[list[k].seat.0 as int],
                    list[k],
                ),
{
    host_tool_names_differ();
    let opts = opts_of(start_opts_in(args)->Ok_0);
    let (h, r) = g.started(token, opts);
    only_that_game_changes(before, id, h);
    if r is Ok {
        given_characters_are_dealt(g, token, opts);
        assert(moved_to(before, after, id, h, reply));
    }
}

} // verus!
