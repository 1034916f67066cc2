//! What everybody at the table sees and hears: speech, who is alive, and how the days go by.

use crate::comms::PublicEventView;
use crate::error::GameError;
use crate::game::ability::info_laws::{distinct_ids, found_where_it_stands};
use crate::game::day_laws::{in_nominations, then_published, under_way, yes_count};
use crate::game::ids::SeatId;
use crate::game::phase::{DayStage, NightStep, Phase};
use crate::game::seat::seat_index_is_first;
use crate::game::state::GameView;
use vstd::prelude::*;

verus! {

/// Somebody sits there.
pub open spec fn at_the_table(g: GameView, seat: SeatId) -> bool {
    exists|i: int| 0 <= i < g.seats.len() && (#[trigger] g.seats[i]).id == seat
}

/// By day a player's words are heard by everybody, under the player's own name and unchanged, and
/// change nothing; by night, in the lobby and after the end nobody is heard.
pub proof fn words_are_heard_by_day(g: GameView, i: int, text: Seq<char>)
    requires
        distinct_ids(g.seats),
        0 <= i < g.seats.len(),
    ensures
        g.said(g.seats[i].id, text, None) is Ok <==> g.phase is Day,
        g.said(g.seats[i].id, text, None) matches Ok(h) ==> {
            &&& h == (GameView { public_log: h.public_log, ..g })
            &&& h.public_log.events.len() == g.public_log.events.len() + 1
            &&& then_published(
                g,
                h,
                0,
                PublicEventView::Chat {
                    seat: g.seats[i].id,
                    name: g.seats[i].display_name@,
                    text,
                    to: None,
                },
            )
        },
{
    found_where_it_stands(g.seats, i);
}

/// A player may address another one, up to six times a day and each player up to six times; the
/// one addressed is then waited for.
pub proof fn addressing_is_counted(g: GameView, i: int, t: int, text: Seq<char>)
    requires
        distinct_ids(g.seats),
        0 <= i < g.seats.len(),
        0 <= t < g.seats.len(),
        g.directed_say_sent.len() == g.seats.len() == g.directed_say_received.len(),
        g.seats[i].id.0 == i,
        g.seats[t].id.0 == t,
    ensures
        ({
            let r = g.said(g.seats[i].id, text, Some(g.seats[t].id));
            &&& r is Ok <==> g.phase is Day && i != t && g.directed_say_sent[i] < 6
                && g.directed_say_received[t] < 6
            &&& r matches Ok(h) ==> {
                &&& h.pending_directed_wake == Some(g.seats[t].id)
                &&& h.directed_say_sent == g.directed_say_sent.update(
                    i,
                    (g.directed_say_sent[i] + 1) as u32,
                )
                &&& h.directed_say_received == g.directed_say_received.update(
                    t,
                    (g.directed_say_received[t] + 1) as u32,
                )
                &&& h.seats == g.seats && h.phase == g.phase
                &&& then_published(
                    g,
                    h,
                    0,
                    PublicEventView::Chat {
                        seat: g.seats[i].id,
                        name: g.seats[i].display_name@,
                        text,
                        to: Some(g.seats[t].id),
                    },
                )
            }
        }),
{
    found_where_it_stands(g.seats, i);
    found_where_it_stands(g.seats, t);
}

/// A seat that is not at the table does not speak.
pub proof fn strangers_are_not_heard(
    g: GameView,
    seat: SeatId,
    text: Seq<char>,
    to: Option<SeatId>,
)
    requires
        !at_the_table(g, seat),
    ensures
        g.said(seat, text, to) is Err,
{
    seat_index_is_first(g.seats, seat);
}

/// The public list of seats tells everybody's name, and that a player is dead only once it is
/// public: whoever dies in the night is listed as alive until the night is over.
pub proof fn night_deaths_are_hidden(g: GameView, i: int)
    requires
        0 <= i < g.seats.len(),
    ensures
        ({
            let shown = g.roster()[i];
            let s = g.seats[i];
            let night = g.phase is FirstNight || g.phase is Night;
            &&& g.roster().len() == g.seats.len()
            &&& shown.id == s.id && shown.name == s.display_name
            &&& shown.ghost_vote_available == s.ghost_vote_available
            &&& s.alive ==> shown.alive
            &&& !s.alive && !night ==> !shown.alive
            &&& !s.alive && night ==> shown.alive == g.deaths_tonight.contains(s.id)
        }),
{
}

/// Nobody was executed today, and somebody who has not nominated can put up somebody who was not
/// nominated.
pub open spec fn can_go_on(g: GameView, i: int, j: int) -> bool {
    &&& g.executed_today is None
    &&& 0 <= i < g.seats.len() && 0 <= j < g.seats.len()
    &&& g.seats[i].alive && g.seats[j].alive
    &&& g.seats[i].id != g.seats[j].id
    &&& !g.day_nominators.contains(g.seats[i].id)
    &&& !g.day_nominees.contains(g.seats[j].id)
}

/// The nominations of a day end by themselves exactly once somebody was executed or nobody can be
/// nominated by anybody any more; until then nothing happens, nor while a vote or a Storyteller
/// decision is open.
pub proof fn days_end_when_nobody_is_left(g: GameView, day: u32)
    ensures
        (exists|i: int, j: int| #[trigger] can_go_on(g, i, j)) ==> g.day_auto_ended() == g,
        !in_nominations(g) || g.current_nomination is Some || g.pending_host is Some || g.winner
            is Some ==> g.day_auto_ended() == g,
        g.phase == (Phase::Day { day, stage: DayStage::Nominations }) && g.current_nomination
            is None && g.pending_host is None && g.winner is None && !(exists|i: int, j: int|
            #[trigger] can_go_on(g, i, j)) ==> g.day_auto_ended() == g.day_closed(day),
{
    reveal(GameView::day_auto_ended);
    if exists|i: int, j: int| #[trigger] can_go_on(g, i, j) {
        let (i, j) = choose|i: int, j: int| #[trigger] can_go_on(g, i, j);
        assert(g.may_nominate(i, j));
    }
    if g.nomination_remains() && g.current_nomination is None {
        let (i, j) = choose|i: int, j: int| #[trigger] g.may_nominate(i, j);
        assert(can_go_on(g, i, j));
    }
}

/// The host closes an open vote, and only an open one: it is counted, yes by yes, and if nobody
/// can be nominated any more the day is over with it.
pub proof fn votes_are_closed_and_counted(g: GameView)
    ensures
        g.vote_closed() is Ok <==> under_way(g) && in_nominations(g) && g.current_nomination
            is Some,
        g.vote_closed() matches Ok(h) ==> (g.current_nomination->0.votes.len() < u32::MAX && (
        exists|i: int, j: int| #[trigger] can_go_on(g, i, j)) ==> {
            let open = g.current_nomination->0;
            &&& h.current_nomination is None
            &&& h.closed_nominations.len() == g.closed_nominations.len() + 1
            &&& h.closed_nominations.last().target == open.target
            &&& h.closed_nominations.last().yes_votes == yes_count(open.votes)
            &&& h.seats == g.seats && h.phase == g.phase
        }),
{
    if g.vote_closed() is Ok && g.current_nomination->0.votes.len() < u32::MAX {
        crate::game::day_laws::tallies_count_the_yes(g);
        if exists|i: int, j: int| #[trigger] can_go_on(g, i, j) {
            let (i, j) = choose|i: int, j: int| #[trigger] can_go_on(g, i, j);
            assert(can_go_on(g.tallied(), i, j));
            days_end_when_nobody_is_left(g.tallied(), 0);
        }
    }
}

/// The host ends the nominations of a day that is in them, and then the day is over; nothing else
/// can be ended so.
pub proof fn nominations_end_with_the_day(g: GameView, day: u32)
    ensures
        g.nominations_ended() is Ok <==> under_way(g) && in_nominations(g),
        under_way(g) && g.phase == (Phase::Day { day, stage: DayStage::Nominations })
            ==> g.nominations_ended() == Ok::<GameView, GameError>(g.day_closed(day)),
{
}

/// A game at this number of the calendar: that night, or the day after it.
pub open spec fn at_number(p: Phase, n: u32) -> bool {
    (p matches Phase::Night { night, .. } && night == n) || (p matches Phase::Day { day, stage }
        && day == n && stage == DayStage::Discussion)
}

proof fn ticking_keeps_the_number(g: GameView, n: u32)
    requires
        g.phase matches Phase::Night { night, .. } && night == n,
    ensures
        at_number(g.ticked().phase, n),
    decreases g.night_queue.len() - g.night_cursor,
{
    reveal(GameView::dawned);
    if !(g.pending_night is Some || g.night_cursor >= g.night_queue.len() || g.night_cursor
        == usize::MAX) {
        let step = g.night_queue[g.night_cursor as int];
        if crate::game::night::wake_of(step) is None && step != NightStep::Dawn {
            ticking_keeps_the_number(
                GameView { private_inboxes: g.step_mail(step), ..g }.advanced(),
                n,
            );
        }
    }
}

/// The first night leads to the first day, and every later night to the day of its own number.
pub proof fn nights_lead_to_their_day(g: GameView)
    ensures
        g.phase is FirstNight ==> g.dawned().phase == (Phase::Day {
            day: 1,
            stage: DayStage::Discussion,
        }),
        g.phase matches Phase::Night { night, .. } ==> g.dawned().phase == (Phase::Day {
            day: night,
            stage: DayStage::Discussion,
        }),
{
    reveal(GameView::dawned);
}

/// A day that does not decide the game is followed by the night of the next number.
pub proof fn days_are_followed_by_the_next_night(g: GameView, day: u32)
    requires
        day < u32::MAX,
    ensures
        ({
            let h = g.day_closed(day);
            h.winner is Some || h.phase is Ended || at_number(h.phase, (day + 1) as u32)
        }),
{
    reveal(GameView::day_closed);
    let night = (day + 1) as u32;
    let counted = g.tallied();
    let judged = if counted.executed_today is Some {
        counted
    } else {
        match crate::game::day::block_leader(
            counted.closed_nominations,
            crate::game::seat::head_count(counted.seats),
        ) {
            Some(leader) => counted.executed(leader),
            None => {
                let spared = counted.publish(PublicEventView::NoExecution).announce(
                    "No execution today."@,
                );
                if spared.mayor_wins() {
                    spared.ended(
                        crate::game::phase::Winner::Good,
                        crate::game::phase::EndReason::MayorThreeNoExec,
                    )
                } else {
                    spared.win_checked()
                }
            },
        }
    };
    if !judged.over() {
        reveal(GameView::night_entered);
        let fallen = GameView { deaths_tonight: seq![], pending_night: None, ..judged };
        let begun = GameView {
            phase: Phase::Night { night, cursor: 0 },
            night_queue: fallen.other_night_steps(),
            night_cursor: 0,
            ..fallen
        };
        ticking_keeps_the_number(begun.announce("Night falls. Eyes closed."@), night);
    }
}

} // verus!
