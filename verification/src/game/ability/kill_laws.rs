//! What the Demon's attack by night does: whom it kills, whom it spares, and who takes over.

use crate::comms::{PrivateMessageView, PublicEventView};
use crate::game::ability::evil::{bounce_candidate, living_minion, KillResult};
use crate::game::ability::info_laws::{
    distinct_ids, found_where_it_stands, is_evil, is_kept, kept_ids_stand, works,
};
use crate::game::phase::{EndReason, NightStep, Phase, Winner};
use crate::game::seat::{ascending, ascending_sorts, ids_where, living, Seat};
use crate::game::st_policy::MayorRedirectChoice;
use crate::game::state::GameView;
use crate::game::win::{
    first_where, first_where_is_first, living_imp, ready_scarlet_woman, turned_imp,
};
use crate::rng::draws_are_in_range;
use crate::roles::{Character, Team};
use vstd::prelude::*;

verus! {

/// How many players are alive.
pub open spec fn alive_count(seats: Seq<Seat>) -> nat {
    seats.filter(|s: Seat| s.alive).len()
}

/// The engine's count is that of the living.
pub proof fn the_living_are_counted(seats: Seq<Seat>)
    ensures
        living(seats) == alive_count(seats),
    decreases seats.len(),
{
    reveal(Seq::filter);
    if seats.len() > 0 {
        the_living_are_counted(seats.drop_last());
    }
}

/// Everybody but the seat at `k` lives as before.
pub open spec fn only_dies(before: Seq<Seat>, after: Seq<Seat>, k: int) -> bool {
    &&& after.len() == before.len()
    &&& 0 <= k < before.len() && before[k].alive && !after[k].alive
    &&& forall|i: int|
        0 <= i < before.len() && i != k ==> (#[trigger] after[i]).alive == before[i].alive
}

/// Everybody at their place with the same name and id.
pub open spec fn same_table(before: Seq<Seat>, after: Seq<Seat>) -> bool {
    &&& after.len() == before.len()
    &&& forall|i: int|
        0 <= i < before.len() ==> (#[trigger] after[i]).id == before[i].id
            && after[i].display_name == before[i].display_name
}

/// Everybody has the character they had, and believes what they believed.
pub open spec fn same_characters(before: Seq<Seat>, after: Seq<Seat>) -> bool {
    &&& after.len() == before.len()
    &&& forall|i: int|
        0 <= i < before.len() ==> (#[trigger] after[i]).true_character == before[i].true_character
            && after[i].believed_character == before[i].believed_character
}

/// The attack cannot kill this seat: it is dead, the Monk guards it, or it is a working Soldier.
pub open spec fn is_safe(s: Seat) -> bool {
    !s.alive || s.monk_protected_tonight || (s.true_character == Some(Character::Soldier) && works(
        s,
    ))
}

/// A Mayor whose ability works.
pub open spec fn working_mayor(s: Seat) -> bool {
    s.true_character == Some(Character::Mayor) && works(s)
}

/// A living Scarlet Woman whose ability works.
pub open spec fn heiress(s: Seat) -> bool {
    s.alive && s.true_character == Some(Character::ScarletWoman) && works(s)
}

/// Somebody alive is the Imp.
pub open spec fn an_imp_lives(seats: Seq<Seat>) -> bool {
    exists|i: int|
        0 <= i < seats.len() && (#[trigger] seats[i]).alive && seats[i].true_character == Some(
            Character::Imp,
        )
}

/// The win check looks for a living Imp and changes no seat.
pub proof fn win_check_looks_for_an_imp(g: GameView)
    ensures
        g.win_checked().seats == g.seats,
        g.win_checked().night_queue == g.night_queue,
        g.win_checked().deaths_tonight == g.deaths_tonight,
        g.win_checked().private_inboxes == g.private_inboxes,
        g.win_checked().executed_today == g.executed_today,
        g.winner is Some || g.phase is Ended || an_imp_lives(g.seats) ==> g.win_checked() == g,
        !(g.winner is Some || g.phase is Ended || an_imp_lives(g.seats)) ==> g.win_checked().winner
            == Some(Winner::Good) && g.win_checked().phase == (Phase::Ended {
            winner: Winner::Good,
            reason: EndReason::DemonDead,
        }) && g.win_checked().public_log == g.public_log.push(
            PublicEventView::GameEnded { winner: Team::Good },
        ),
{
    reveal(GameView::win_checked);
    first_where_is_first(g.seats, |s: Seat| living_imp(s));
}

/// Succession: with five or more alive before, the first working Scarlet Woman alive becomes the
/// Imp and is told so, and nothing else changes.
pub proof fn heiress_becomes_the_imp(g: GameView, alive_before: u32, k: int)
    requires
        0 <= k < g.seats.len(),
        heiress(g.seats[k]),
        forall|i: int| 0 <= i < k ==> !heiress(#[trigger] g.seats[i]),
    ensures
        alive_before >= 5 ==> g.demon_succeeded(alive_before) == (GameView {
            seats: g.seats.update(
                k,
                Seat {
                    true_character: Some(Character::Imp),
                    believed_character: None,
                    is_drunk_outsider: false,
                    ..g.seats[k]
                },
            ),
            private_inboxes: g.private_inboxes.push(
                g.seats[k].id,
                PrivateMessageView::YouAre {
                    character_label: "Imp"@,
                    team: Team::Evil,
                    rules_path: "docs/roles/demons/imp.md"@,
                    note: Some("You are now the Imp."@),
                },
            ),
            ..g
        }),
        alive_before < 5 ==> g.demon_succeeded(alive_before) == g,
{
    reveal(GameView::demon_succeeded);
    let wanted = |s: Seat| ready_scarlet_woman(s);
    first_where_is_first(g.seats, wanted);
    assert(wanted(g.seats[k]));
    let f = first_where(g.seats, wanted)->0;
    if f < k {
        assert(!heiress(g.seats[f]));
    }
    assert(f == k);
}

/// Without a working Scarlet Woman alive there is no succession.
pub proof fn no_heiress_no_succession(g: GameView, alive_before: u32)
    requires
        forall|i: int| 0 <= i < g.seats.len() ==> !heiress(#[trigger] g.seats[i]),
    ensures
        g.demon_succeeded(alive_before) == g,
{
    reveal(GameView::demon_succeeded);
    first_where_is_first(g.seats, |s: Seat| ready_scarlet_woman(s));
}

/// A death by the Demon, seen from the table.
proof fn slaying(g: GameView, t: int)
    requires
        distinct_ids(g.seats),
        0 <= t < g.seats.len(),
        g.seats[t].alive,
        g.seats[t].true_character != Some(Character::Imp),
    ensures
        ({
            let h = g.demon_slew(g.seats[t].id);
            let s = g.seats[t];
            let raven = NightStep::Ravenkeeper { seat: s.id };
            &&& only_dies(g.seats, h.seats, t)
            &&& same_table(g.seats, h.seats)
            &&& same_characters(g.seats, h.seats)
            &&& h.deaths_tonight.contains(s.id)
            &&& forall|i: int|
                0 <= i < g.seats.len() ==> (#[trigger] h.seats[i]).poisoned == (
                g.seats[i].poisoned && s.true_character != Some(Character::Poisoner))
            &&& s.face() != Some(Character::Ravenkeeper) ==> h.night_queue == g.night_queue
            &&& s.face() == Some(Character::Ravenkeeper) ==> h.night_queue.contains(raven)
            &&& s.face() == Some(Character::Ravenkeeper) && !g.night_queue.contains(raven)
                && g.night_cursor < g.night_queue.len() ==> h.night_queue == g.night_queue.insert(
                g.night_cursor + 1,
                raven,
            )
            &&& h.private_inboxes == g.private_inboxes
            &&& g.winner is Some || g.phase is Ended || an_imp_lives(h.seats) ==> h.winner
                == g.winner && h.phase == g.phase && h.public_log == g.public_log
            &&& g.winner is None && !(g.phase is Ended) && !an_imp_lives(h.seats) ==> h.winner
                == Some(Winner::Good)
        }),
{
    reveal(GameView::demon_slew);
    let s = g.seats[t];
    found_where_it_stands(g.seats, t);
    let killed = g.killed_tonight(s.id);
    assert(killed.seats =~= g.seats.update(t, Seat { alive: false, ..s }));
    assert(killed.deaths_tonight.contains(s.id)) by {
        if !g.deaths_tonight.contains(s.id) {
            assert(killed.deaths_tonight.last() == s.id);
        }
    }
    let cured = if s.true_character == Some(Character::Poisoner) {
        killed.unpoisoned()
    } else {
        killed
    };
    let woken = if s.face() == Some(Character::Ravenkeeper) {
        cured.raven_wake_inserted(s.id)
    } else {
        cured
    };
    win_check_looks_for_an_imp(woken);
    let raven = NightStep::Ravenkeeper { seat: s.id };
    if s.face() == Some(Character::Ravenkeeper) && !g.night_queue.contains(raven) {
        let at = if g.night_cursor < g.night_queue.len() {
            g.night_cursor + 1
        } else {
            g.night_queue.len() as int
        };
        assert(woken.night_queue[at] == raven);
    }
    assert(g.demon_slew(s.id) == woken.win_checked());
    let h = woken.win_checked();
    assert forall|i: int| 0 <= i < g.seats.len() implies (#[trigger] h.seats[i]).poisoned == (
    g.seats[i].poisoned && s.true_character != Some(Character::Poisoner)) by {}
}

/// Whoever a working Imp attacks and nothing protects dies, and nobody else: the death is on
/// tonight's list and on no public record, the poison of a dead Poisoner ends, a player who faces
/// as Ravenkeeper wakes next, and while an Imp lives the game goes on.
pub proof fn unprotected_targets_die(g: GameView, d: int, t: int)
    requires
        distinct_ids(g.seats),
        0 <= d < g.seats.len(),
        0 <= t < g.seats.len(),
        d != t,
        works(g.seats[d]),
        !is_safe(g.seats[t]),
        !working_mayor(g.seats[t]),
        g.seats[t].true_character != Some(Character::Imp),
    ensures
        ({
            let (h, r) = g.demon_kill(g.seats[d].id, g.seats[t].id);
            let s = g.seats[t];
            let raven = NightStep::Ravenkeeper { seat: s.id };
            let faces_raven = s.believed_character == Some(Character::Ravenkeeper) || (
            s.believed_character is None && s.true_character == Some(Character::Ravenkeeper));
            &&& r == KillResult::Died(s.id)
            &&& only_dies(g.seats, h.seats, t)
            &&& same_characters(g.seats, h.seats)
            &&& h.deaths_tonight.contains(s.id)
            &&& forall|i: int|
                0 <= i < g.seats.len() ==> (#[trigger] h.seats[i]).poisoned == (
                g.seats[i].poisoned && s.true_character != Some(Character::Poisoner))
            &&& h.night_queue.contains(raven) == (faces_raven || g.night_queue.contains(raven))
            &&& faces_raven && !g.night_queue.contains(raven) && g.night_cursor
                < g.night_queue.len() ==> h.night_queue == g.night_queue.insert(
                g.night_cursor + 1,
                raven,
            )
            &&& h.private_inboxes == g.private_inboxes
            &&& g.winner is None && !(g.phase is Ended) && an_imp_lives(h.seats) ==> h.winner
                is None && h.phase == g.phase && h.public_log == g.public_log
            &&& g.winner is None && !(g.phase is Ended) && !an_imp_lives(h.seats) ==> h.winner
                == Some(Winner::Good)
        }),
{
    reveal(GameView::demon_kill);
    reveal(GameView::attacked);
    found_where_it_stands(g.seats, d);
    found_where_it_stands(g.seats, t);
    if d < t {
        assert(g.seats[d].id != g.seats[t].id);
    } else {
        assert(g.seats[t].id != g.seats[d].id);
    }
    slaying(g, t);
}

/// Nobody dies by an Imp that does not work, and nobody whom the Monk guards, no working Soldier
/// and nobody dead is hurt by one that does: the game stays as it was.
pub proof fn protected_targets_live(g: GameView, d: int, t: int)
    requires
        distinct_ids(g.seats),
        0 <= d < g.seats.len(),
        0 <= t < g.seats.len(),
        d != t,
        !works(g.seats[d]) || is_safe(g.seats[t]),
    ensures
        g.demon_kill(g.seats[d].id, g.seats[t].id) == (
            g,
            if works(g.seats[d]) && !g.seats[t].alive {
                KillResult::Sank
            } else {
                KillResult::Survived
            },
        ),
        !works(g.seats[d]) ==> g.demon_kill(g.seats[d].id, g.seats[d].id) == (
            g,
            KillResult::Survived,
        ),
{
    reveal(GameView::demon_kill);
    reveal(GameView::attacked);
    found_where_it_stands(g.seats, d);
    found_where_it_stands(g.seats, t);
    if d < t {
        assert(g.seats[d].id != g.seats[t].id);
    } else {
        assert(g.seats[t].id != g.seats[d].id);
    }
}

// ---------------------------------------------------------------------------
// The Mayor
// ---------------------------------------------------------------------------

/// The attack on the Mayor at `m` may hit the seat at `k` instead: another good player whom the
/// Demon can kill, and no working Mayor.
pub open spec fn may_be_hit_instead(g: GameView, m: int, k: int) -> bool {
    &&& 0 <= k < g.seats.len() && k != m
    &&& !is_safe(g.seats[k])
    &&& g.seats[k].true_character is Some && !is_evil(g.seats[k].true_character)
    &&& !working_mayor(g.seats[k])
}

proof fn candidates_may_be_hit(g: GameView, m: int, k: int)
    requires
        distinct_ids(g.seats),
        0 <= m < g.seats.len(),
        0 <= k < g.seats.len(),
    ensures
        bounce_candidate(g.seats, g.seats[m].id, g.seats[k]) == may_be_hit_instead(g, m, k),
{
    found_where_it_stands(g.seats, k);
    if k < m {
        assert(g.seats[k].id != g.seats[m].id);
    } else if m < k {
        assert(g.seats[m].id != g.seats[k].id);
    }
}

/// A working Mayor whom nothing else protects survives the attack of a working Imp. Another good
/// player whom the Demon can kill dies instead, exactly one; where there is none, nobody dies.
pub proof fn attacks_on_the_mayor_bounce(g: GameView, d: int, m: int)
    requires
        distinct_ids(g.seats),
        0 <= d < g.seats.len(),
        0 <= m < g.seats.len(),
        d != m,
        works(g.seats[d]),
        !is_safe(g.seats[m]),
        working_mayor(g.seats[m]),
    ensures
        ({
            let (h, r) = g.demon_kill(g.seats[d].id, g.seats[m].id);
            &&& h.seats.len() == g.seats.len() && h.seats[m].alive
            &&& (exists|k: int| #[trigger] may_be_hit_instead(g, m, k)) ==> exists|k: int|
                #[trigger] may_be_hit_instead(g, m, k) && r == KillResult::Died(g.seats[k].id)
                    && only_dies(g.seats, h.seats, k)
            &&& !(exists|k: int| #[trigger] may_be_hit_instead(g, m, k)) ==> h == g && r
                == KillResult::Survived
        }),
{
    reveal(GameView::demon_kill);
    reveal(GameView::attacked);
    reveal(GameView::mayor_bounced);
    found_where_it_stands(g.seats, d);
    found_where_it_stands(g.seats, m);
    if d < m {
        assert(g.seats[d].id != g.seats[m].id);
    } else {
        assert(g.seats[m].id != g.seats[d].id);
    }
    let mayor = g.seats[m].id;
    let keep = |s: Seat| bounce_candidate(g.seats, mayor, s);
    let ids = ids_where(g.seats, keep);
    let candidates = g.bounce_candidates(mayor);
    kept_ids_stand(g.seats, keep);
    ascending_sorts(ids);
    assert(candidates == ascending(ids));
    if exists|k: int| #[trigger] may_be_hit_instead(g, m, k) {
        let k = choose|k: int| #[trigger] may_be_hit_instead(g, m, k);
        candidates_may_be_hit(g, m, k);
        assert(keep(g.seats[k]));
        assert(ids.contains(g.seats[k].id));
    }
    if candidates.len() > 0 {
        let at = g.night_stream("mayor_bounce:c"@).choice(candidates.len()).0;
        draws_are_in_range(g.night_stream("mayor_bounce:c"@), candidates.len());
        let victim = candidates[at];
        assert(candidates.to_multiset().contains(victim)) by {
            candidates.to_multiset_ensures();
        }
        ids.to_multiset_ensures();
        assert(ids.contains(victim));
        let place = ids.index_of(victim);
        assert(is_kept(g.seats, keep, ids[place]));
        let v = choose|i: int|
            0 <= i < g.seats.len() && (#[trigger] g.seats[i]).id == victim && keep(g.seats[i]);
        candidates_may_be_hit(g, m, v);
        assert(may_be_hit_instead(g, m, v));
        slaying(g, v);
        assert(g.demon_kill(g.seats[d].id, mayor) == (
            g.demon_slew(victim),
            KillResult::Died(victim),
        ));
    }
}

/// What the host decides about an attack on the Mayor happens: the Mayor dies, or the player they
/// name if the Demon can kill that one, or nobody.
pub proof fn the_host_decides_the_bounce(g: GameView, m: int, t: int)
    requires
        distinct_ids(g.seats),
        0 <= m < g.seats.len(),
        0 <= t < g.seats.len(),
        g.seats[m].alive && g.seats[m].true_character == Some(Character::Mayor),
        g.seats[t].true_character != Some(Character::Imp),
    ensures
        ({
            let id = g.seats[m].id;
            let target = g.seats[t].id;
            let mayor_dies = g.mayor_decided(id, MayorRedirectChoice::KillMayor);
            let other_dies = g.mayor_decided(id, MayorRedirectChoice::KillOther { target });
            &&& only_dies(g.seats, mayor_dies.0.seats, m) && mayor_dies.1 == KillResult::Died(id)
            &&& !is_safe(g.seats[t]) ==> only_dies(g.seats, other_dies.0.seats, t) && other_dies.1
                == KillResult::Died(target)
            &&& is_safe(g.seats[t]) ==> other_dies == (g, KillResult::Survived)
            &&& g.mayor_decided(id, MayorRedirectChoice::Nobody) == (g, KillResult::Survived)
        }),
{
    found_where_it_stands(g.seats, m);
    found_where_it_stands(g.seats, t);
    slaying(g, m);
    if !is_safe(g.seats[t]) {
        slaying(g, t);
    }
}

// ---------------------------------------------------------------------------
// Starpass
// ---------------------------------------------------------------------------

/// A living Minion.
pub open spec fn is_living_minion(s: Seat) -> bool {
    s.alive && is_evil(s.true_character) && s.true_character != Some(Character::Imp)
}

/// The seat at `k` became the Imp, knows it, and is otherwise as before.
pub open spec fn became_the_imp(before: Seat, after: Seat) -> bool {
    &&& after.true_character == Some(Character::Imp)
    &&& after.believed_character is None
    &&& !after.is_drunk_outsider
    &&& after.alive == before.alive && after.id == before.id
}

/// An Imp that passes the star: the Imp at `d` dies, the Minion at `k` is the Imp from then on, the
/// poison of a Poisoner who became the Imp ends, and the game goes on.
pub open spec fn star_passed(g: GameView, h: GameView, d: int, k: int) -> bool {
    &&& only_dies(g.seats, h.seats, d)
    &&& became_the_imp(g.seats[k], h.seats[k])
    &&& forall|i: int|
        0 <= i < g.seats.len() && i != k ==> (#[trigger] h.seats[i]).true_character
            == g.seats[i].true_character
    &&& forall|i: int|
        0 <= i < g.seats.len() ==> (#[trigger] h.seats[i]).poisoned == (g.seats[i].poisoned
            && g.seats[k].true_character != Some(Character::Poisoner))
    &&& h.winner == g.winner && h.phase == g.phase && h.public_log == g.public_log
    &&& h.deaths_tonight.contains(g.seats[d].id)
}

proof fn star_passes_to(g: GameView, d: int, k: int)
    requires
        distinct_ids(g.seats),
        0 <= d < g.seats.len(),
        0 <= k < g.seats.len(),
        d != k,
        g.seats[d].alive,
        is_living_minion(g.seats[k]),
    ensures
        star_passed(g, g.killed_tonight(g.seats[d].id).starpassed_to(g.seats[k].id), d, k),
{
    reveal(GameView::starpassed_to);
    found_where_it_stands(g.seats, d);
    let dead = g.killed_tonight(g.seats[d].id);
    assert(dead.seats =~= g.seats.update(d, Seat { alive: false, ..g.seats[d] }));
    assert(dead.deaths_tonight.contains(g.seats[d].id)) by {
        if !g.deaths_tonight.contains(g.seats[d].id) {
            assert(dead.deaths_tonight.last() == g.seats[d].id);
        }
    }
    assert(distinct_ids(dead.seats)) by {
        assert forall|i: int, j: int| 0 <= i < j < dead.seats.len() implies dead.seats[i].id
            != dead.seats[j].id by {
            assert(g.seats[i].id != g.seats[j].id);
        }
    }
    assert(dead.seats[k] == g.seats[k]);
    found_where_it_stands(dead.seats, k);
    let id = g.seats[k].id;
    let turned = GameView {
        seats: dead.seats.update(k, turned_imp(g.seats[k])),
        ..dead
    };
    let clean = if g.seats[k].true_character == Some(Character::Poisoner) {
        turned.unpoisoned()
    } else {
        turned
    };
    let told = clean.whisper(id, crate::game::win::you_are_the_imp());
    win_check_looks_for_an_imp(told);
    assert(told.seats[k].alive && told.seats[k].true_character == Some(Character::Imp));
    let h = dead.starpassed_to(id);
    assert(h == told);
    assert forall|i: int| 0 <= i < g.seats.len() && i != k implies (
    #[trigger] h.seats[i]).true_character == g.seats[i].true_character by {}
    assert forall|i: int| 0 <= i < g.seats.len() implies (#[trigger] h.seats[i]).poisoned == (
    g.seats[i].poisoned && g.seats[k].true_character != Some(Character::Poisoner)) by {}
}

/// A working Imp that attacks itself dies, and one of the living Minions is the Imp from then on.
/// Without a living Minion nobody takes over, and unless another Imp lives Good has won.
pub proof fn imps_pass_the_star(g: GameView, d: int)
    requires
        distinct_ids(g.seats),
        0 <= d < g.seats.len(),
        works(g.seats[d]),
        g.seats[d].alive,
        g.seats[d].true_character == Some(Character::Imp),
    ensures
        ({
            let (h, r) = g.demon_kill(g.seats[d].id, g.seats[d].id);
            &&& (exists|k: int| 0 <= k < g.seats.len() && is_living_minion(#[trigger] g.seats[k]))
                ==> exists|k: int|
                0 <= k < g.seats.len() && is_living_minion(#[trigger] g.seats[k]) && star_passed(
                    g,
                    h,
                    d,
                    k,
                ) && r == (KillResult::Starpass {
                    dead_imp: g.seats[d].id,
                    new_imp: g.seats[k].id,
                })
            &&& !(exists|k: int|
                0 <= k < g.seats.len() && is_living_minion(#[trigger] g.seats[k])) ==> {
                &&& r == KillResult::Died(g.seats[d].id)
                &&& only_dies(g.seats, h.seats, d)
                &&& same_characters(g.seats, h.seats)
                &&& g.winner is None && !(g.phase is Ended) && !an_imp_lives(h.seats) ==> h.winner
                    == Some(Winner::Good)
            }
        }),
{
    reveal(GameView::demon_kill);
    reveal(GameView::starpass);
    found_where_it_stands(g.seats, d);
    let id = g.seats[d].id;
    let dead = g.killed_tonight(id);
    assert(dead.seats =~= g.seats.update(d, Seat { alive: false, ..g.seats[d] }));
    let keep = |s: Seat| living_minion(s);
    let ids = ids_where(dead.seats, keep);
    kept_ids_stand(dead.seats, keep);
    ascending_sorts(ids);
    let minions = dead.living_minions();
    assert(minions == ascending(ids));
    assert forall|k: int| 0 <= k < g.seats.len() implies keep(#[trigger] dead.seats[k])
        == is_living_minion(g.seats[k]) by {}
    if exists|k: int| 0 <= k < g.seats.len() && is_living_minion(#[trigger] g.seats[k]) {
        let k = choose|k: int|
            0 <= k < g.seats.len() && is_living_minion(#[trigger] g.seats[k]);
        assert(keep(dead.seats[k]));
        assert(ids.contains(dead.seats[k].id));
    }
    if minions.len() > 0 {
        let at = dead.night_stream("starpass:c"@).choice(minions.len()).0;
        draws_are_in_range(dead.night_stream("starpass:c"@), minions.len());
        let heir = minions[at];
        assert(minions.to_multiset().contains(heir)) by {
            minions.to_multiset_ensures();
        }
        ids.to_multiset_ensures();
        let place = ids.index_of(heir);
        assert(is_kept(dead.seats, keep, ids[place]));
        let v = choose|i: int|
            0 <= i < dead.seats.len() && (#[trigger] dead.seats[i]).id == heir && keep(
                dead.seats[i],
            );
        assert(is_living_minion(g.seats[v]));
        assert(g.seats[v].id == heir);
        star_passes_to(g, d, v);
    } else {
        win_check_looks_for_an_imp(dead);
    }
}

/// The host's pick of the new Imp is the new Imp.
pub proof fn the_host_passes_the_star(g: GameView, d: int, k: int)
    requires
        distinct_ids(g.seats),
        0 <= d < g.seats.len(),
        0 <= k < g.seats.len(),
        d != k,
        g.seats[d].alive,
        is_living_minion(g.seats[k]),
    ensures
        star_passed(g, g.killed_tonight(g.seats[d].id).starpassed_to(g.seats[k].id), d, k),
{
    star_passes_to(g, d, k);
}

// ---------------------------------------------------------------------------
// Poison and protection
// ---------------------------------------------------------------------------

/// Poisoning and guarding mark the seat they name and no other; lifting the marks lifts them all.
pub proof fn marks_go_where_they_are_put(g: GameView, t: int)
    requires
        distinct_ids(g.seats),
        0 <= t < g.seats.len(),
    ensures
        g.poisoned(g.seats[t].id) == (GameView {
            seats: g.seats.update(t, Seat { poisoned: true, ..g.seats[t] }),
            ..g
        }),
        g.monk_shielded(g.seats[t].id) == (GameView {
            seats: g.seats.update(t, Seat { monk_protected_tonight: true, ..g.seats[t] }),
            ..g
        }),
        g.unpoisoned().seats.len() == g.seats.len(),
        g.unpoisoned().seats[t] == (Seat { poisoned: false, ..g.seats[t] }),
        g.unshielded().seats.len() == g.seats.len(),
        g.unshielded().seats[t] == (Seat { monk_protected_tonight: false, ..g.seats[t] }),
{
    found_where_it_stands(g.seats, t);
}

} // verus!
