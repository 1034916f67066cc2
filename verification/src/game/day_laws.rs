//! What happens by day: who may nominate, vote and shoot, what it does, and who dies.

use crate::comms::PublicEventView;
use crate::error::GameError;
use crate::game::ability::info_laws::{distinct_ids, found_where_it_stands, works};
use crate::game::ability::kill_laws::{
    alive_count, an_imp_lives, heiress, heiress_becomes_the_imp, no_heiress_no_succession,
    only_dies, same_characters, same_table, the_living_are_counted, win_check_looks_for_an_imp,
};
use crate::game::day::{
    block_leader, carries, next_day, seat_responded, strictly_leads, voted_by, yes_total,
    ClosedNomination, OpenNominationView,
};
use crate::game::ids::SeatId;
use crate::game::laws::{
    closed_when_complete_continues, day_auto_ended_continues, vote_window_continues,
};
use crate::game::phase::{DayStage, EndReason, NightStep, Phase, Winner};
use crate::game::seat::{head_count, with_seat, Seat};
use crate::game::st_policy::RegistrationMode;
use crate::game::state::GameView;
use crate::game::win::{first_where, first_where_is_first};
use crate::roles::{type_of, Character, CharacterType};
use crate::text::dec;
use vstd::prelude::*;

verus! {

/// Nobody has won, and no Storyteller decision is open.
pub open spec fn under_way(g: GameView) -> bool {
    g.winner is None && !(g.phase is Ended) && g.pending_host is None
}

/// The nominations of a day are on.
pub open spec fn in_nominations(g: GameView) -> bool {
    g.phase matches Phase::Day { stage: DayStage::Nominations, .. }
}

/// The public record kept all it held and then, `k` events later, this one.
pub open spec fn then_published(g: GameView, h: GameView, k: int, e: PublicEventView) -> bool {
    &&& g.public_log.events.is_prefix_of(h.public_log.events)
    &&& g.public_log.events.len() + k < h.public_log.events.len()
    &&& h.public_log.events[g.public_log.events.len() + k].1 == e
}

/// The seat has cast a ballot.
pub open spec fn has_voted(votes: Seq<(SeatId, bool)>, id: SeatId) -> bool {
    votes.contains((id, true)) || votes.contains((id, false))
}

/// How many ballots say yes.
pub open spec fn yes_count(votes: Seq<(SeatId, bool)>) -> nat {
    votes.filter(|v: (SeatId, bool)| v.1).len()
}

/// Everybody alive has voted, and every dead player who still may has voted or passed.
pub open spec fn all_heard(seats: Seq<Seat>, votes: Seq<(SeatId, bool)>, passes: Seq<SeatId>) -> bool {
    forall|i: int|
        0 <= i < seats.len() ==> has_voted(votes, (#[trigger] seats[i]).id) || (!seats[i].alive && (
        !seats[i].ghost_vote_available || passes.contains(seats[i].id)))
}

proof fn ballots_are_votes(votes: Seq<(SeatId, bool)>, id: SeatId)
    ensures
        voted_by(votes, id) == has_voted(votes, id),
{
    if voted_by(votes, id) {
        let i = choose|i: int| 0 <= i < votes.len() && (#[trigger] votes[i]).0 == id;
        assert(votes[i] == (id, true) || votes[i] == (id, false));
    }
    if votes.contains((id, true)) {
        let i = votes.index_of((id, true));
        assert(votes[i].0 == id);
    }
    if votes.contains((id, false)) {
        let i = votes.index_of((id, false));
        assert(votes[i].0 == id);
    }
}

proof fn yes_is_counted(votes: Seq<(SeatId, bool)>)
    ensures
        yes_total(votes) == yes_count(votes),
    decreases votes.len(),
{
    reveal(Seq::filter);
    if votes.len() > 0 {
        yes_is_counted(votes.drop_last());
    }
}

proof fn heard_means_responded(g: GameView)
    requires
        g.current_nomination is Some,
    ensures
        g.vote_complete() == all_heard(
            g.seats,
            g.current_nomination->0.votes,
            g.current_nomination->0.passes,
        ),
{
    let open = g.current_nomination->0;
    assert forall|i: int| 0 <= i < g.seats.len() implies seat_responded(open, #[trigger] g.seats[i])
        == (has_voted(open.votes, g.seats[i].id) || (!g.seats[i].alive && (
    !g.seats[i].ghost_vote_available || open.passes.contains(g.seats[i].id)))) by {
        ballots_are_votes(open.votes, g.seats[i].id);
    }
    if all_heard(g.seats, open.votes, open.passes) {
        assert forall|i: int| 0 <= i < g.seats.len() implies seat_responded(
            open,
            #[trigger] g.seats[i],
        ) by {}
    }
    if g.vote_complete() {
        assert forall|i: int| 0 <= i < g.seats.len() implies has_voted(
            open.votes,
            (#[trigger] g.seats[i]).id,
        ) || (!g.seats[i].alive && (!g.seats[i].ghost_vote_available || open.passes.contains(
            g.seats[i].id,
        ))) by {
            assert(seat_responded(open, g.seats[i]));
        }
    }
}

/// The announcement of a closed vote.
pub open spec fn vote_closed_words(target: SeatId, yes: nat) -> Seq<char> {
    "Votes closed on seat "@ + dec(target.0 as nat) + ": "@ + dec(yes) + " yes vote(s)."@
}

// ---------------------------------------------------------------------------
// Voting
// ---------------------------------------------------------------------------

/// The seat at `v` may vote on the open nomination of `nominee`: the window is open on that player,
/// the seat has not answered, it is alive or has its ghost vote left, and a living Butler whose
/// ability works says yes only behind the master.
pub open spec fn may_vote(g: GameView, v: int, nominee: SeatId, support: bool) -> bool {
    &&& under_way(g) && in_nominations(g)
    &&& g.current_nomination matches Some(open) && open.target == nominee && !has_voted(
        open.votes,
        g.seats[v].id,
    ) && !open.passes.contains(g.seats[v].id) && (support && g.seats[v].alive
        && g.seats[v].true_character == Some(Character::Butler) && works(g.seats[v]) ==> (
    g.seats[v].butler_master matches Some(m) && open.votes.contains((m, true))))
    &&& g.seats[v].alive || g.seats[v].ghost_vote_available
}

/// A vote is granted exactly to whom it is open, and it counts as cast: the record shows the seat,
/// the nominee and the answer, that ballot joins the others, and a dead player's yes spends the
/// ghost vote. Once everybody was heard the vote closes with the number of yes ballots.
pub proof fn votes_count_as_cast(g: GameView, v: int, nominee: SeatId, support: bool)
    requires
        distinct_ids(g.seats),
        0 <= v < g.seats.len(),
        g.current_nomination matches Some(open) ==> open.votes.len() < u32::MAX - 1,
    ensures
        g.voted(g.seats[v].id, nominee, support) is Ok <==> may_vote(g, v, nominee, support),
        g.voted(g.seats[v].id, nominee, support) matches Ok(h) ==> {
            let open = g.current_nomination->0;
            let votes = open.votes.push((g.seats[v].id, support));
            let seats = g.seats.update(
                v,
                Seat {
                    ghost_vote_available: g.seats[v].ghost_vote_available && (g.seats[v].alive
                        || !support),
                    ..g.seats[v]
                },
            );
            &&& then_published(
                g,
                h,
                0,
                PublicEventView::VoteCast { seat: g.seats[v].id, nominee, support },
            )
            &&& !all_heard(seats, votes, open.passes) ==> h == (GameView {
                seats,
                current_nomination: Some(OpenNominationView { votes, ..open }),
                public_log: h.public_log,
                ..g
            })
            &&& all_heard(seats, votes, open.passes) ==> then_published(
                g,
                h,
                1,
                PublicEventView::StorytellerAnnounce {
                    text: vote_closed_words(open.target, yes_count(votes)),
                },
            )
        },
{
    reveal(GameView::voted);
    let id = g.seats[v].id;
    found_where_it_stands(g.seats, v);
    if let Some(open) = g.current_nomination {
        ballots_are_votes(open.votes, id);
    }
    if let Ok(h) = g.voted(id, nominee, support) {
        let open = g.current_nomination->0;
        let votes = open.votes.push((id, support));
        let voter = g.seats[v];
        let spent = if !voter.alive && support {
            GameView {
                seats: with_seat(g.seats, id, Seat { ghost_vote_available: false, ..voter }),
                ..g
            }
        } else {
            g
        };
        let seats = g.seats.update(
            v,
            Seat {
                ghost_vote_available: voter.ghost_vote_available && (voter.alive || !support),
                ..voter
            },
        );
        assert(spent.seats =~= seats);
        let cast = GameView {
            current_nomination: Some(OpenNominationView { votes, ..open }),
            ..spent.publish(PublicEventView::VoteCast { seat: id, nominee, support })
        };
        assert(h == cast.closed_when_complete());
        heard_means_responded(cast);
        closed_when_complete_continues(cast);
        let n = g.public_log.events.len() as int;
        assert(cast.public_log.events[n].1 == PublicEventView::VoteCast {
            seat: id,
            nominee,
            support,
        });
        reveal(GameView::closed_when_complete);
        if all_heard(seats, votes, open.passes) {
            let counted = cast.tallied();
            yes_is_counted(votes);
            yes_is_at_most_all(votes);
            day_auto_ended_continues(counted);
            assert(counted.public_log.events[n + 1].1 == PublicEventView::StorytellerAnnounce {
                text: vote_closed_words(open.target, yes_count(votes)),
            });
        }
    }
}

proof fn yes_is_at_most_all(votes: Seq<(SeatId, bool)>)
    ensures
        yes_total(votes) <= votes.len(),
    decreases votes.len(),
{
    if votes.len() > 0 {
        yes_is_at_most_all(votes.drop_last());
    }
}

/// A pass is for the dead who still have their ghost vote and have not answered. It keeps the ghost
/// vote, casts no ballot, and counts as heard.
pub proof fn passes_keep_the_ghost_vote(g: GameView, v: int)
    requires
        distinct_ids(g.seats),
        0 <= v < g.seats.len(),
    ensures
        g.passed(g.seats[v].id) is Ok <==> under_way(g) && in_nominations(g) && (
        g.current_nomination matches Some(open) && !has_voted(open.votes, g.seats[v].id)
            && !open.passes.contains(g.seats[v].id)) && !g.seats[v].alive
            && g.seats[v].ghost_vote_available,
        g.passed(g.seats[v].id) matches Ok(h) ==> {
            let open = g.current_nomination->0;
            let passes = open.passes.push(g.seats[v].id);
            !all_heard(g.seats, open.votes, passes) ==> h == (GameView {
                current_nomination: Some(OpenNominationView { passes, ..open }),
                ..g
            })
        },
{
    reveal(GameView::passed);
    let id = g.seats[v].id;
    found_where_it_stands(g.seats, v);
    if let Some(open) = g.current_nomination {
        ballots_are_votes(open.votes, id);
    }
    if let Ok(h) = g.passed(id) {
        let open = g.current_nomination->0;
        let noted = GameView {
            current_nomination: Some(
                OpenNominationView { passes: open.passes.push(id), ..open },
            ),
            ..g
        };
        heard_means_responded(noted);
        reveal(GameView::closed_when_complete);
    }
}

/// Counting a vote records the nominator, the nominee and the number of yes ballots, says so in
/// public, and closes the window.
pub proof fn tallies_count_the_yes(g: GameView)
    requires
        g.current_nomination is Some,
        g.current_nomination->0.votes.len() < u32::MAX,
    ensures
        ({
            let open = g.current_nomination->0;
            let h = g.tallied();
            &&& h.current_nomination is None
            &&& h.closed_nominations.len() == g.closed_nominations.len() + 1
            &&& h.closed_nominations.last().by == open.by && h.closed_nominations.last().target
                == open.target && h.closed_nominations.last().yes_votes == yes_count(open.votes)
            &&& h.closed_nominations.drop_last() == g.closed_nominations
            &&& then_published(
                g,
                h,
                0,
                PublicEventView::StorytellerAnnounce {
                    text: vote_closed_words(open.target, yes_count(open.votes)),
                },
            )
            &&& h.seats == g.seats && h.phase == g.phase && h.winner == g.winner
        }),
{
    let open = g.current_nomination->0;
    yes_is_counted(open.votes);
    yes_is_at_most_all(open.votes);
    assert(g.tallied().closed_nominations.drop_last() =~= g.closed_nominations);
}

/// On the block stands exactly the nominee with at least half of the living behind the vote and
/// more yes ballots than anybody else with as much; with a tie at the top, or nobody over the mark,
/// nobody does.
pub proof fn the_block_goes_by_the_votes(noms: Seq<ClosedNomination>, living: u32, t: SeatId)
    ensures
        block_leader(noms, living) == Some(t) <==> living > 0 && exists|i: int|
            0 <= i < noms.len() && (#[trigger] noms[i]).target == t && 2 * noms[i].yes_votes
                >= living && forall|j: int|
                0 <= j < noms.len() && j != i && 2 * (#[trigger] noms[j]).yes_votes >= living
                    ==> noms[j].yes_votes < noms[i].yes_votes,
{
    assert forall|i: int, j: int|
        strictly_leads(noms, living, i) && strictly_leads(noms, living, j) implies i == j by {
        if i != j {
            assert(carries(noms[i].yes_votes, living) && carries(noms[j].yes_votes, living));
        }
    }
    if block_leader(noms, living) == Some(t) {
        let i = choose|i: int| strictly_leads(noms, living, i);
        assert(noms[i].target == t);
    }
    if living > 0 {
        if exists|i: int|
            0 <= i < noms.len() && (#[trigger] noms[i]).target == t && 2 * noms[i].yes_votes
                >= living && forall|j: int|
                0 <= j < noms.len() && j != i && 2 * (#[trigger] noms[j]).yes_votes >= living
                    ==> noms[j].yes_votes < noms[i].yes_votes {
            let i = choose|i: int|
                0 <= i < noms.len() && (#[trigger] noms[i]).target == t && 2 * noms[i].yes_votes
                    >= living && forall|j: int|
                    0 <= j < noms.len() && j != i && 2 * (#[trigger] noms[j]).yes_votes >= living
                        ==> noms[j].yes_votes < noms[i].yes_votes;
            assert(strictly_leads(noms, living, i));
        }
    }
}

// ---------------------------------------------------------------------------
// Nominating
// ---------------------------------------------------------------------------

/// The player at `b` may nominate the player at `t`.
pub open spec fn may_put_up(g: GameView, b: int, t: int) -> bool {
    &&& under_way(g) && g.phase is Day && g.executed_today is None && g.current_nomination is None
    &&& b != t && g.seats[b].alive && g.seats[t].alive
    &&& !g.day_nominators.contains(g.seats[b].id)
    &&& !g.day_nominees.contains(g.seats[t].id)
}

/// How many events a nomination publishes before itself: it may have to open the nominations.
pub open spec fn opening_events(g: GameView) -> int {
    if in_nominations(g) { 0 } else { 2 }
}

/// A nomination is granted exactly where it is legal. It is published, and unless it is the Virgin's
/// first a window opens on the nominee with the nominator's yes as the first ballot (a Butler
/// without a yes of the master excepted); it closes at once only if nobody else is left to answer.
pub proof fn nominations_open_a_vote(g: GameView, b: int, t: int)
    requires
        distinct_ids(g.seats),
        0 <= b < g.seats.len(),
        0 <= t < g.seats.len(),
    ensures
        g.nominated(g.seats[b].id, g.seats[t].id) is Ok <==> may_put_up(g, b, t),
        g.nominated(g.seats[b].id, g.seats[t].id) matches Ok(h) ==> (g.seats[t].true_character
            != Some(Character::Virgin) || g.seats[t].virgin_ability_used ==> {
            let by = g.seats[b].id;
            let target = g.seats[t].id;
            let bound = g.seats[b].true_character == Some(Character::Butler) && works(g.seats[b]);
            &&& then_published(
                g,
                h,
                opening_events(g),
                PublicEventView::Nominated { by, target },
            )
            &&& bound ==> h.current_nomination == Some(
                OpenNominationView { by, target, votes: seq![], passes: seq![] },
            )
            &&& !bound ==> then_published(
                g,
                h,
                opening_events(g) + 1,
                PublicEventView::VoteCast { seat: by, nominee: target, support: true },
            )
            &&& !bound && !all_heard(g.seats, seq![(by, true)], seq![]) ==> h.current_nomination
                == Some(OpenNominationView { by, target, votes: seq![(by, true)], passes: seq![] })
            &&& bound || !all_heard(g.seats, seq![(by, true)], seq![]) ==> h.seats == g.seats
                && h.day_nominators == g.day_nominators.push(by) && h.day_nominees
                == g.day_nominees.push(target) && in_nominations(h)
        }),
{
    reveal(GameView::nominated);
    reveal(GameView::vote_window_opened);
    let by = g.seats[b].id;
    let target = g.seats[t].id;
    found_where_it_stands(g.seats, b);
    found_where_it_stands(g.seats, t);
    if b < t {
        assert(by != target);
    } else if t < b {
        assert(target != by);
    }
    if g.nominated(by, target) is Ok && !(g.seats[t].true_character == Some(Character::Virgin)
        && !g.seats[t].virgin_ability_used) {
        let h = g.nominated(by, target)->Ok_0;
        let open = match g.phase {
            Phase::Day { day, stage: DayStage::Discussion } => g.with_nominations(day),
            _ => g,
        };
        let noted = open.nomination_recorded(by, target);
        assert(h == noted.vote_window_opened(by, target));
        vote_window_continues(noted, by, target);
        let window = GameView {
            current_nomination: Some(OpenNominationView { by, target, votes: seq![], passes: seq![] }),
            ..noted
        };
        votes_count_as_cast(window, b, target, true);
        let votes = Seq::<(SeatId, bool)>::empty().push((by, true));
        assert(votes =~= seq![(by, true)]);
        let same = window.seats.update(
            b,
            Seat { ghost_vote_available: window.seats[b].ghost_vote_available, ..window.seats[b] },
        );
        assert(same =~= g.seats);
        let n = g.public_log.events.len() as int;
        assert(noted.public_log.events[n + opening_events(g)].1 == PublicEventView::Nominated {
            by,
            target,
        });
    }
}

/// The Virgin's first nomination spends her power. If it works and the nominator is a Townsfolk,
/// the nominator is executed at once and no vote opens; by anybody else but a Spy the vote opens as
/// usual.
pub proof fn the_virgin_strikes_townsfolk(g: GameView, b: int, t: int)
    requires
        distinct_ids(g.seats),
        0 <= b < g.seats.len(),
        0 <= t < g.seats.len(),
        may_put_up(g, b, t),
        g.seats[t].true_character == Some(Character::Virgin),
        !g.seats[t].virgin_ability_used,
        g.seats[b].true_character is Some,
    ensures
        g.nominated(g.seats[b].id, g.seats[t].id) matches Ok(h) && {
            let by = g.seats[b].id;
            let target = g.seats[t].id;
            let townsfolk = type_of(g.seats[b].true_character->0) == CharacterType::Townsfolk;
            &&& h.seats.len() == g.seats.len() && h.seats[t].virgin_ability_used
            &&& then_published(
                g,
                h,
                opening_events(g),
                PublicEventView::Nominated { by, target },
            )
            &&& works(g.seats[t]) && townsfolk ==> !h.seats[b].alive && then_published(
                g,
                h,
                opening_events(g) + 2,
                PublicEventView::Executed { seat: by },
            )
            &&& !works(g.seats[t]) || (!townsfolk && g.seats[b].true_character != Some(
                Character::Spy,
            )) ==> (g.seats[b].true_character == Some(Character::Butler) && works(g.seats[b]))
                || then_published(
                g,
                h,
                opening_events(g) + 1,
                PublicEventView::VoteCast { seat: by, nominee: target, support: true },
            )
        },
{
    reveal(GameView::nominated);
    reveal(GameView::virgin_nominated);
    reveal(GameView::vote_window_opened);
    let by = g.seats[b].id;
    let target = g.seats[t].id;
    nominations_open_a_vote(g, b, t);
    found_where_it_stands(g.seats, b);
    found_where_it_stands(g.seats, t);
    let open = match g.phase {
        Phase::Day { day, stage: DayStage::Discussion } => g.with_nominations(day),
        _ => g,
    };
    let virgin = g.seats[t];
    let spent = GameView {
        seats: with_seat(open.seats, target, Seat { virgin_ability_used: true, ..virgin }),
        ..open
    }.nomination_recorded(by, target);
    assert(spent.seats =~= g.seats.update(t, Seat { virgin_ability_used: true, ..virgin }));
    distinct_after_update(g.seats, t, Seat { virgin_ability_used: true, ..virgin });
    found_where_it_stands(spent.seats, b);
    let n = g.public_log.events.len() as int;
    let o = opening_events(g);
    assert(spent.public_log.events[n + o].1 == PublicEventView::Nominated { by, target });
    let label = "virgin_reg:day:nom:"@ + dec(by.0 as nat);
    let struck = !virgin.disabled() && spent.registers_townsfolk(by, label);
    crate::game::laws::nominated_continues(g, by, target);
    if struck {
        let announced = spent.announce("The Virgin's power triggers. The nominator is executed."@);
        executions_kill(announced, b);
        let shot = announced.executed(by);
        day_auto_ended_continues(shot);
        let h = shot.day_auto_ended();
        assert(shot.public_log.events[n + o + 2].1 == PublicEventView::Executed { seat: by });
        prefixes_keep(announced.public_log.events, shot.public_log.events, n + o);
        prefixes_keep(shot.public_log.events, h.public_log.events, n + o);
        prefixes_keep(shot.public_log.events, h.public_log.events, n + o + 2);
        assert(crate::game::laws::seat_continues(shot.seats[b], h.seats[b]));
        crate::game::laws::execution_continues(announced, by);
        assert(crate::game::laws::seat_continues(announced.seats[t], shot.seats[t]));
        assert(crate::game::laws::seat_continues(shot.seats[t], h.seats[t]));
    } else {
        vote_window_continues(spent, by, target);
        let h = spent.vote_window_opened(by, target);
        assert(crate::game::laws::seat_continues(spent.seats[t], h.seats[t]));
        prefixes_keep(spent.public_log.events, h.public_log.events, n + o);
        let window = GameView {
            current_nomination: Some(OpenNominationView { by, target, votes: seq![], passes: seq![] }),
            ..spent
        };
        votes_count_as_cast(window, b, target, true);
    }
}

proof fn prefixes_keep<T>(a: Seq<T>, b: Seq<T>, i: int)
    requires
        a.is_prefix_of(b),
        0 <= i < a.len(),
    ensures
        i < b.len(),
        a[i] == b[i],
{
    assert(b.subrange(0, a.len() as int)[i] == b[i]);
}

/// Replacing a seat by one with its id keeps the ids distinct.
pub proof fn distinct_after_update(seats: Seq<Seat>, k: int, s: Seat)
    requires
        distinct_ids(seats),
        0 <= k < seats.len(),
        s.id == seats[k].id,
    ensures
        distinct_ids(seats.update(k, s)),
{
    let after = seats.update(k, s);
    assert forall|i: int, j: int| 0 <= i < j < after.len() implies after[i].id != after[j].id by {
        assert(seats[i].id != seats[j].id);
    }
}

/// Opening the nominations moves a day of discussion on and says so; it is granted exactly then.
pub proof fn nominations_open_by_day(g: GameView)
    ensures
        g.nominations_opened() is Ok <==> under_way(g) && (g.phase matches Phase::Day {
            stage: DayStage::Discussion,
            ..
        }) && g.current_nomination is None,
        g.nominations_opened() matches Ok(h) ==> {
            &&& (g.phase matches Phase::Day { day, .. } && h.phase == (Phase::Day {
                day,
                stage: DayStage::Nominations,
            }))
            &&& h == (GameView { phase: h.phase, public_log: h.public_log, ..g })
            &&& then_published(
                g,
                h,
                0,
                PublicEventView::StorytellerAnnounce { text: "Nominations are open."@ },
            )
        },
{
}

// ---------------------------------------------------------------------------
// Executions
// ---------------------------------------------------------------------------

/// Who has won once the player at `k` is dead at this table: nobody while an Imp lives, else Good.
pub open spec fn decided_by_imps(before: GameView, after: GameView) -> bool {
    if an_imp_lives(after.seats) {
        after.winner is None && after.phase == before.phase
    } else {
        after.winner == Some(Winner::Good) && after.phase == (Phase::Ended {
            winner: Winner::Good,
            reason: EndReason::DemonDead,
        })
    }
}

/// An execution kills the player, who keeps one ghost vote, and nobody else; it is published as an
/// execution and as a death, and noted as today's. The poison of an executed Poisoner ends. An
/// executed working Saint loses for Good; otherwise Good wins exactly if no Imp is left. The first
/// working Scarlet Woman alive takes over from an executed Imp if five or more were alive.
pub proof fn executions_kill(g: GameView, k: int)
    requires
        distinct_ids(g.seats),
        0 <= k < g.seats.len(),
        g.seats[k].alive,
        g.winner is None && !(g.phase is Ended),
    ensures
        ({
            let h = g.executed(g.seats[k].id);
            let s = g.seats[k];
            &&& only_dies(g.seats, h.seats, k)
            &&& same_table(g.seats, h.seats)
            &&& h.seats[k].ghost_vote_available
            &&& h.executed_today == Some(s.id)
            &&& then_published(g, h, 0, PublicEventView::Executed { seat: s.id })
            &&& then_published(g, h, 1, PublicEventView::PlayerDied { seat: s.id })
            &&& forall|i: int|
                0 <= i < g.seats.len() ==> (#[trigger] h.seats[i]).poisoned == (
                g.seats[i].poisoned && s.true_character != Some(Character::Poisoner))
            &&& s.true_character != Some(Character::Imp) ==> same_characters(g.seats, h.seats)
            &&& s.true_character == Some(Character::Saint) && works(s) ==> h.winner == Some(
                Winner::Evil,
            ) && h.phase == (Phase::Ended {
                winner: Winner::Evil,
                reason: EndReason::SaintExecuted,
            })
            &&& !(s.true_character == Some(Character::Saint) && works(s)) ==> decided_by_imps(g, h)
            &&& s.true_character == Some(Character::Imp) ==> forall|w: int|
                0 <= w < g.seats.len() && w != k && #[trigger] first_heiress(g.seats, w)
                    && alive_count(g.seats) >= 5 ==> h.seats[w].true_character == Some(
                    Character::Imp,
                ) && h.seats[w].alive && h.winner is None
        }),
{
    reveal(GameView::executed);
    let id = g.seats[k].id;
    let s = g.seats[k];
    found_where_it_stands(g.seats, k);
    the_living_are_counted(g.seats);
    let alive_before = head_count(g.seats);
    let gone = Seat { alive: false, ghost_vote_available: true, ..s };
    let told = GameView {
        seats: g.seats.update(k, gone),
        executed_today: Some(id),
        ..g
    }.publish(PublicEventView::Executed { seat: id }).publish(PublicEventView::PlayerDied { seat: id });
    let n = g.public_log.events.len() as int;
    assert(told.public_log.events[n].1 == PublicEventView::Executed { seat: id });
    assert(told.public_log.events[n + 1].1 == PublicEventView::PlayerDied { seat: id });
    let cured = if s.true_character == Some(Character::Poisoner) { told.unpoisoned() } else { told };
    let h = g.executed(id);
    assert(with_seat(g.seats, id, gone) =~= g.seats.update(k, gone));
    crate::game::laws::execution_continues(g, id);
    if s.true_character == Some(Character::Imp) {
        if exists|w: int| 0 <= w < cured.seats.len() && heiress(#[trigger] cured.seats[w]) {
            let w = first_of_heiresses(cured.seats);
            heiress_becomes_the_imp(cured, alive_before, w);
            let followed = cured.demon_succeeded(alive_before);
            win_check_looks_for_an_imp(followed);
            if alive_before >= 5 {
                assert(followed.seats[w].alive && followed.seats[w].true_character == Some(
                    Character::Imp,
                ));
            }
            assert forall|x: int|
                0 <= x < g.seats.len() && x != k && #[trigger] first_heiress(
                    g.seats,
                    x,
                ) implies x == w by {
                assert(heiress(cured.seats[x]));
                if w < x {
                    assert(heiress(g.seats[w]));
                }
            }
        } else {
            no_heiress_no_succession(cured, alive_before);
            win_check_looks_for_an_imp(cured);
            assert forall|x: int|
                0 <= x < g.seats.len() && x != k && #[trigger] first_heiress(
                    g.seats,
                    x,
                ) implies false by {
                assert(heiress(cured.seats[x]));
            }
        }
    } else {
        win_check_looks_for_an_imp(cured);
    }
}

/// The seat at `w` is the first living Scarlet Woman whose ability works.
pub open spec fn first_heiress(seats: Seq<Seat>, w: int) -> bool {
    heiress(seats[w]) && forall|i: int| 0 <= i < w ==> !heiress(#[trigger] seats[i])
}

proof fn first_of_heiresses(seats: Seq<Seat>) -> (w: int)
    requires
        exists|w: int| 0 <= w < seats.len() && heiress(#[trigger] seats[w]),
    ensures
        0 <= w < seats.len(),
        heiress(seats[w]),
        forall|i: int| 0 <= i < w ==> !heiress(#[trigger] seats[i]),
{
    let wanted = |s: Seat| heiress(s);
    first_where_is_first(seats, wanted);
    let x = choose|w: int| 0 <= w < seats.len() && heiress(#[trigger] seats[w]);
    assert(wanted(seats[x]));
    let w = first_where(seats, wanted)->0;
    assert forall|i: int| 0 <= i < w implies !heiress(#[trigger] seats[i]) by {
        assert(!wanted(seats[i]));
    }
    w
}

// ---------------------------------------------------------------------------
// The Slayer
// ---------------------------------------------------------------------------

/// The player at `s` may shoot the player at `t`: alive, facing as the Slayer, with the shot left.
pub open spec fn may_shoot(g: GameView, s: int) -> bool {
    &&& under_way(g) && g.phase is Day
    &&& g.seats[s].alive && !g.seats[s].slayer_used
    &&& g.seats[s].believed_character == Some(Character::Slayer) || (g.seats[s].believed_character
        is None && g.seats[s].true_character == Some(Character::Slayer))
}

/// The shot is granted exactly to a living player who faces as the Slayer and has not shot yet, and
/// it is spent by it, whatever it hits.
pub proof fn shots_are_spent(g: GameView, s: int, t: int)
    requires
        distinct_ids(g.seats),
        0 <= s < g.seats.len(),
        0 <= t < g.seats.len(),
    ensures
        g.slew(g.seats[s].id, g.seats[t].id) is Ok <==> may_shoot(g, s),
        g.slew(g.seats[s].id, g.seats[t].id) matches Ok(h) ==> h.seats.len() == g.seats.len()
            && h.seats[s].slayer_used,
{
    reveal(GameView::slew);
    found_where_it_stands(g.seats, s);
    found_where_it_stands(g.seats, t);
    if g.slew(g.seats[s].id, g.seats[t].id) is Ok {
        let spent = GameView {
            seats: g.seats.update(s, Seat { slayer_used: true, ..g.seats[s] }),
            ..g
        };
        distinct_after_update(g.seats, s, Seat { slayer_used: true, ..g.seats[s] });
        if spent.seats[t].alive {
            shot_players_die(spent, t);
        }
    }
}

proof fn shot_players_die(g: GameView, t: int)
    requires
        distinct_ids(g.seats),
        0 <= t < g.seats.len(),
        g.seats[t].alive,
    ensures
        forall|was_imp: bool|
            {
                let h = #[trigger] g.slain(g.seats[t].id, was_imp);
                &&& only_dies(g.seats, h.seats, t)
                &&& same_table(g.seats, h.seats)
                &&& h.seats[t].ghost_vote_available
                &&& forall|i: int|
                    0 <= i < g.seats.len() ==> (#[trigger] h.seats[i]).slayer_used
                        == g.seats[i].slayer_used
                &&& then_published(g, h, 0, PublicEventView::PlayerDied { seat: g.seats[t].id })
                &&& g.winner is None && !(g.phase is Ended) ==> decided_by_imps(g, h)
                &&& !was_imp ==> same_characters(g.seats, h.seats)
                &&& was_imp ==> forall|w: int|
                    0 <= w < g.seats.len() && w != t && #[trigger] first_heiress(g.seats, w)
                        && !heiress(g.seats[t]) && alive_count(g.seats) >= 5
                        ==> h.seats[w].true_character == Some(Character::Imp) && h.seats[w].alive
                        && h.winner == g.winner
            },
{
    let id = g.seats[t].id;
    found_where_it_stands(g.seats, t);
    the_living_are_counted(g.seats);
    let alive_before = head_count(g.seats);
    let gone = Seat { alive: false, ghost_vote_available: true, ..g.seats[t] };
    assert(with_seat(g.seats, id, gone) =~= g.seats.update(t, gone));
    let told = GameView { seats: g.seats.update(t, gone), ..g }.publish(
        PublicEventView::PlayerDied { seat: id },
    ).announce("Seat "@ + dec(id.0 as nat) + " dies."@);
    let n = g.public_log.events.len() as int;
    assert(told.public_log.events[n].1 == PublicEventView::PlayerDied { seat: id });
    win_check_looks_for_an_imp(told);
    assert forall|was_imp: bool|
        {
            let h = #[trigger] g.slain(id, was_imp);
            &&& only_dies(g.seats, h.seats, t)
            &&& same_table(g.seats, h.seats)
            &&& h.seats[t].ghost_vote_available
            &&& forall|i: int|
                0 <= i < g.seats.len() ==> (#[trigger] h.seats[i]).slayer_used
                    == g.seats[i].slayer_used
            &&& then_published(g, h, 0, PublicEventView::PlayerDied { seat: id })
            &&& g.winner is None && !(g.phase is Ended) ==> decided_by_imps(g, h)
            &&& !was_imp ==> same_characters(g.seats, h.seats)
            &&& was_imp ==> forall|w: int|
                0 <= w < g.seats.len() && w != t && #[trigger] first_heiress(g.seats, w)
                    && !heiress(g.seats[t]) && alive_count(g.seats) >= 5
                    ==> h.seats[w].true_character == Some(Character::Imp) && h.seats[w].alive
                    && h.winner == g.winner
        } by {
        reveal(GameView::slain);
        let h = g.slain(id, was_imp);
        crate::game::laws::slain_continues(g, id, was_imp);
        if was_imp {
            if exists|w: int| 0 <= w < told.seats.len() && heiress(#[trigger] told.seats[w]) {
                let w = first_of_heiresses(told.seats);
                heiress_becomes_the_imp(told, alive_before, w);
                let followed = told.demon_succeeded(alive_before);
                win_check_looks_for_an_imp(followed);
                if alive_before >= 5 {
                    assert(followed.seats[w].alive && followed.seats[w].true_character == Some(
                        Character::Imp,
                    ));
                }
                assert forall|x: int|
                    0 <= x < g.seats.len() && x != t && #[trigger] first_heiress(g.seats, x)
                        && !heiress(g.seats[t]) implies x == w by {
                    assert(heiress(told.seats[x]));
                    if w < x {
                        assert(heiress(g.seats[w]));
                    }
                }
            } else {
                no_heiress_no_succession(told, alive_before);
                assert forall|x: int|
                    0 <= x < g.seats.len() && x != t && #[trigger] first_heiress(
                        g.seats,
                        x,
                    ) implies false by {
                    assert(heiress(told.seats[x]));
                }
            }
        }
    }
}

/// A working Slayer who shoots the living Imp kills it, in public. The first working Scarlet Woman
/// alive is the Imp from then on if five or more were alive before the shot, and nobody has won;
/// otherwise Good has won unless another Imp lives.
pub proof fn the_slayer_kills_the_imp(g: GameView, s: int, t: int)
    requires
        distinct_ids(g.seats),
        0 <= s < g.seats.len(),
        0 <= t < g.seats.len(),
        may_shoot(g, s),
        g.seats[s].true_character == Some(Character::Slayer) && works(g.seats[s]),
        g.seats[t].alive && g.seats[t].true_character == Some(Character::Imp),
    ensures
        g.slew(g.seats[s].id, g.seats[t].id) matches Ok(h) && {
            &&& only_dies(g.seats, h.seats, t)
            &&& then_published(g, h, 0, PublicEventView::PlayerDied { seat: g.seats[t].id })
            &&& decided_by_imps(g, h)
            &&& forall|w: int|
                0 <= w < g.seats.len() && #[trigger] first_heiress(g.seats, w) && alive_count(
                    g.seats,
                ) >= 5 ==> h.seats[w].true_character == Some(Character::Imp) && h.seats[w].alive
                    && h.winner == g.winner && h.phase == g.phase
        },
{
    reveal(GameView::slew);
    found_where_it_stands(g.seats, s);
    found_where_it_stands(g.seats, t);
    let spent = GameView {
        seats: g.seats.update(s, Seat { slayer_used: true, ..g.seats[s] }),
        ..g
    };
    distinct_after_update(g.seats, s, Seat { slayer_used: true, ..g.seats[s] });
    shot_players_die(spent, t);
    let h = spent.slain(g.seats[t].id, true);
    assert(g.slew(g.seats[s].id, g.seats[t].id) == Ok::<GameView, GameError>(h));
    alive_count_by_life(g.seats, spent.seats);
    assert forall|w: int|
        0 <= w < g.seats.len() && #[trigger] first_heiress(g.seats, w) && alive_count(g.seats)
            >= 5 implies h.seats[w].true_character == Some(Character::Imp) && h.seats[w].alive
        && h.winner == g.winner && h.phase == g.phase by {
        assert forall|i: int| 0 <= i < w implies !heiress(#[trigger] spent.seats[i]) by {
            assert(!heiress(g.seats[i]));
        }
        assert(first_heiress(spent.seats, w));
        assert(!heiress(spent.seats[t]));
        assert(h.seats[w].alive);
    }
}

proof fn alive_count_by_life(a: Seq<Seat>, b: Seq<Seat>)
    requires
        a.len() == b.len(),
        forall|i: int| 0 <= i < a.len() ==> (#[trigger] a[i]).alive == b[i].alive,
    ensures
        alive_count(a) == alive_count(b),
    decreases a.len(),
{
    reveal(Seq::filter);
    if a.len() > 0 {
        let x = a.drop_last();
        let y = b.drop_last();
        assert forall|i: int| 0 <= i < x.len() implies (#[trigger] x[i]).alive == y[i].alive by {
            assert(a[i].alive == b[i].alive);
        }
        alive_count_by_life(x, y);
        assert(a[a.len() - 1].alive == b[a.len() - 1].alive);
    }
}

/// Any other shot is spent for nothing: from somebody who only believes to be the Slayer or whose
/// ability does not work, at the dead, or at anybody but the Imp and a Recluse. A Recluse dies by it
/// exactly if they show as the Demon.
pub proof fn other_shots_miss(g: GameView, s: int, t: int)
    requires
        distinct_ids(g.seats),
        0 <= s < g.seats.len(),
        0 <= t < g.seats.len(),
        may_shoot(g, s),
    ensures
        ({
            let spent = GameView {
                seats: g.seats.update(s, Seat { slayer_used: true, ..g.seats[s] }),
                ..g
            };
            let blank = g.seats[s].true_character != Some(Character::Slayer) || !works(g.seats[s])
                || !g.seats[t].alive;
            let recluse = g.seats[t].true_character == Some(Character::Recluse) && works(
                g.seats[t],
            );
            &&& blank || (g.seats[t].true_character != Some(Character::Imp) && (!recluse
                || g.registration_mode == RegistrationMode::AlwaysTrue)) ==> g.slew(
                g.seats[s].id,
                g.seats[t].id,
            ) == Ok::<GameView, GameError>(spent)
            &&& !blank && recluse && g.registration_mode == RegistrationMode::AlwaysMisreg ==> (
            g.slew(g.seats[s].id, g.seats[t].id) matches Ok(h) && only_dies(g.seats, h.seats, t)
                && same_characters(g.seats, h.seats) && decided_by_imps(g, h))
        }),
{
    reveal(GameView::slew);
    found_where_it_stands(g.seats, s);
    found_where_it_stands(g.seats, t);
    let spent = GameView {
        seats: g.seats.update(s, Seat { slayer_used: true, ..g.seats[s] }),
        ..g
    };
    distinct_after_update(g.seats, s, Seat { slayer_used: true, ..g.seats[s] });
    found_where_it_stands(spent.seats, t);
    if g.seats[t].alive {
        shot_players_die(spent, t);
    }
}

// ---------------------------------------------------------------------------
// The end of the day
// ---------------------------------------------------------------------------

/// Between two choices the night changes nobody: everyone is alive, poisoned and who they were.
pub proof fn nights_pass_by_themselves(g: GameView)
    ensures
        ({
            let h = g.ticked();
            &&& h.seats.len() == g.seats.len()
            &&& forall|i: int|
                0 <= i < g.seats.len() ==> (#[trigger] h.seats[i]) == (Seat {
                    monk_protected_tonight: h.seats[i].monk_protected_tonight,
                    ..g.seats[i]
                })
            &&& h.winner == g.winner
        }),
    decreases g.night_queue.len() - g.night_cursor,
{
    reveal(GameView::dawned);
    if !(g.pending_night is Some || !g.phase.night_falls() || g.night_cursor >= g.night_queue.len()
        || g.night_cursor == usize::MAX) {
        let step = g.night_queue[g.night_cursor as int];
        if crate::game::night::wake_of(step) is None && step != NightStep::Dawn {
            nights_pass_by_themselves(
                GameView { private_inboxes: g.step_mail(step), ..g }.advanced(),
            );
        }
    }
}

/// The end of the day executes whoever stands on the block, and nobody else dies. With nobody there
/// no one is executed, which is published; a working Mayor among exactly three living wins for Good
/// by it, and otherwise Good wins only if no Imp lives.
pub proof fn days_end_with_the_block(g: GameView, day: u32)
    requires
        distinct_ids(g.seats),
        g.winner is None && !(g.phase is Ended),
        g.executed_today is None,
        g.current_nomination is None,
    ensures
        ({
            let h = g.day_closed(day);
            let block = block_leader(g.closed_nominations, alive_count(g.seats) as u32);
            &&& alive_count(g.seats) < u32::MAX && block is None ==> {
                &&& then_published(g, h, 0, PublicEventView::NoExecution)
                &&& h.seats.len() == g.seats.len()
                &&& forall|i: int|
                    0 <= i < g.seats.len() ==> (#[trigger] h.seats[i]).alive == g.seats[i].alive
                        && h.seats[i].true_character == g.seats[i].true_character
                &&& (exists|m: int|
                    0 <= m < g.seats.len() && (#[trigger] g.seats[m]).alive
                        && g.seats[m].true_character == Some(Character::Mayor) && works(
                        g.seats[m],
                    )) && alive_count(g.seats) == 3 ==> h.winner == Some(Winner::Good)
                &&& !((exists|m: int|
                    0 <= m < g.seats.len() && (#[trigger] g.seats[m]).alive
                        && g.seats[m].true_character == Some(Character::Mayor) && works(
                        g.seats[m],
                    )) && alive_count(g.seats) == 3) && an_imp_lives(g.seats) ==> h.winner is None
            }
            &&& alive_count(g.seats) < u32::MAX ==> forall|k: int|
                0 <= k < g.seats.len() && g.seats[k].alive && block == Some(
                    (#[trigger] g.seats[k]).id,
                ) ==> only_dies(g.seats, h.seats, k) && then_published(
                    g,
                    h,
                    0,
                    PublicEventView::Executed { seat: g.seats[k].id },
                )
        }),
{
    reveal(GameView::day_closed);
    the_living_are_counted(g.seats);
    let h = g.day_closed(day);
    let block = block_leader(g.closed_nominations, alive_count(g.seats) as u32);
    if alive_count(g.seats) < u32::MAX {
        assert(g.tallied() == g);
        assert(head_count(g.seats) == alive_count(g.seats));
        if block is None {
            let spared = g.publish(PublicEventView::NoExecution).announce("No execution today."@);
            win_check_looks_for_an_imp(spared);
            let wanted = |s: Seat|
                s.alive && s.true_character == Some(Character::Mayor) && !s.disabled();
            first_where_is_first(spared.seats, wanted);
            if exists|m: int|
                0 <= m < g.seats.len() && (#[trigger] g.seats[m]).alive
                    && g.seats[m].true_character == Some(Character::Mayor) && works(g.seats[m]) {
                let m = choose|m: int|
                    0 <= m < g.seats.len() && (#[trigger] g.seats[m]).alive
                        && g.seats[m].true_character == Some(Character::Mayor) && works(g.seats[m]);
                assert(wanted(g.seats[m]));
            }
            let judged = if spared.mayor_wins() {
                spared.ended(Winner::Good, EndReason::MayorThreeNoExec)
            } else {
                spared.win_checked()
            };
            if !judged.over() {
                night_falls_on_the_living(judged, next_day(day));
            }
            assert(judged.seats == g.seats);
            let n = g.public_log.events.len() as int;
            assert(spared.public_log.events[n].1 == PublicEventView::NoExecution);
        }
        assert forall|k: int|
            0 <= k < g.seats.len() && g.seats[k].alive && block == Some(
                (#[trigger] g.seats[k]).id,
            ) implies only_dies(g.seats, h.seats, k) && then_published(
            g,
            h,
            0,
            PublicEventView::Executed { seat: g.seats[k].id },
        ) by {
            executions_kill(g, k);
            let judged = g.executed(g.seats[k].id);
            if !judged.over() {
                night_falls_on_the_living(judged, next_day(day));
            }
        }
    }
}

/// The fall of a night changes nobody at the table and only adds to the record.
pub proof fn night_falls_on_the_living(g: GameView, night: u32)
    ensures
        ({
            let h = g.night_entered(night);
            &&& h.seats.len() == g.seats.len()
            &&& forall|i: int|
                0 <= i < g.seats.len() ==> (#[trigger] h.seats[i]) == (Seat {
                    monk_protected_tonight: h.seats[i].monk_protected_tonight,
                    ..g.seats[i]
                })
            &&& h.winner == g.winner
            &&& then_published(
                g,
                h,
                0,
                PublicEventView::StorytellerAnnounce { text: "Night falls. Eyes closed."@ },
            )
        }),
{
    reveal(GameView::night_entered);
    let fallen = GameView { deaths_tonight: seq![], pending_night: None, ..g };
    let begun = GameView {
        phase: Phase::Night { night, cursor: 0 },
        night_queue: fallen.other_night_steps(),
        night_cursor: 0,
        ..fallen
    }.announce("Night falls. Eyes closed."@);
    nights_pass_by_themselves(begun);
    crate::game::laws::night_tick_continues(begun);
    let n = g.public_log.events.len() as int;
    assert(begun.public_log.events[n].1 == PublicEventView::StorytellerAnnounce {
        text: "Night falls. Eyes closed."@,
    });
}

} // verus!
