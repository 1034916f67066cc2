//! How the Spy and the Recluse show, and what a death in the night brings.

use super::info_laws::{distinct_ids, found_where_it_stands, is_evil, works};
use super::kill_laws::{is_safe, working_mayor};
use crate::game::phase::NightStep;
use crate::game::st_policy::RegistrationMode;
use crate::game::start_laws::type_is_townsfolk;
use crate::game::state::GameView;
use crate::roles::Character;
use vstd::prelude::*;

verus! {

/// A Recluse may show as evil and as the Demon, both or neither by one draw; it never does in the
/// true mode, always does in the other while its ability works, and then not at all.
pub proof fn recluses_show_as_the_mode_says(g: GameView, i: int, label: Seq<char>)
    requires
        distinct_ids(g.seats),
        0 <= i < g.seats.len(),
        g.seats[i].true_character == Some(Character::Recluse),
    ensures
        ({
            let id = g.seats[i].id;
            &&& g.registers_evil(id, label) == g.registers_demon(id, label)
            &&& !g.registers_townsfolk(id, label)
            &&& g.registration_mode == RegistrationMode::AlwaysTrue ==> !g.registers_evil(id, label)
            &&& g.registration_mode == RegistrationMode::AlwaysMisreg ==> g.registers_evil(
                id,
                label,
            ) == works(g.seats[i])
        }),
{
    found_where_it_stands(g.seats, i);
}

/// A Spy may show as good and as a Townsfolk, both or neither by one draw, and never as the Demon;
/// it is shown as evil in the true mode and as good in the other while its ability works.
pub proof fn spies_show_as_the_mode_says(g: GameView, i: int, label: Seq<char>)
    requires
        distinct_ids(g.seats),
        0 <= i < g.seats.len(),
        g.seats[i].true_character == Some(Character::Spy),
    ensures
        ({
            let id = g.seats[i].id;
            &&& g.registers_townsfolk(id, label) == !g.registers_evil(id, label)
            &&& !g.registers_demon(id, label)
            &&& g.registration_mode == RegistrationMode::AlwaysTrue ==> g.registers_evil(id, label)
            &&& g.registration_mode == RegistrationMode::AlwaysMisreg ==> g.registers_evil(
                id,
                label,
            ) == !works(g.seats[i])
        }),
{
    found_where_it_stands(g.seats, i);
}

/// Everybody else shows as what they are, in every mode.
pub proof fn others_show_as_they_are(g: GameView, i: int, label: Seq<char>, c: Character)
    requires
        distinct_ids(g.seats),
        0 <= i < g.seats.len(),
        g.seats[i].true_character == Some(c),
        c != Character::Spy && c != Character::Recluse,
    ensures
        g.registers_evil(g.seats[i].id, label) == is_evil(Some(c)),
        g.registers_demon(g.seats[i].id, label) == (c == Character::Imp),
        g.registers_townsfolk(g.seats[i].id, label) == type_is_townsfolk(c),
{
    found_where_it_stands(g.seats, i);
}

/// Somebody killed in the night is noted among the dead of the night; if they believe to be the
/// Ravenkeeper they are woken, and nobody else is woken for it.
pub proof fn the_killed_are_noted(g: GameView, d: int, t: int)
    requires
        distinct_ids(g.seats),
        0 <= d < g.seats.len(),
        0 <= t < g.seats.len(),
        d != t,
        works(g.seats[d]),
        !is_safe(g.seats[t]),
        !working_mayor(g.seats[t]),
        g.seats[t].true_character != Some(Character::Imp),
    ensures
        ({
            let id = g.seats[t].id;
            let h = g.demon_kill(g.seats[d].id, id).0;
            let raven = if g.seats[t].believed_character is Some {
                g.seats[t].believed_character == Some(Character::Ravenkeeper)
            } else {
                g.seats[t].true_character == Some(Character::Ravenkeeper)
            };
            &&& h.deaths_tonight.contains(id)
            &&& raven ==> h.night_queue.contains(NightStep::Ravenkeeper { seat: id })
            &&& !raven ==> h.night_queue == g.night_queue
        }),
{
    reveal(GameView::demon_kill);
    reveal(GameView::attacked);
    reveal(GameView::demon_slew);
    reveal(GameView::win_checked);
    found_where_it_stands(g.seats, d);
    found_where_it_stands(g.seats, t);
    if d < t {
        assert(g.seats[d].id != g.seats[t].id);
    } else {
        assert(g.seats[t].id != g.seats[d].id);
    }
    let id = g.seats[t].id;
    let killed = g.killed_tonight(id);
    assert(killed.deaths_tonight.contains(id)) by {
        if !g.deaths_tonight.contains(id) {
            assert(killed.deaths_tonight[g.deaths_tonight.len() as int] == id);
        }
    }
    let queue = killed.raven_wake_inserted(id).night_queue;
    assert(queue.contains(NightStep::Ravenkeeper { seat: id })) by {
        if !super::evil::has_raven_wake(g.night_queue, id) {
            let at = if g.night_cursor < g.night_queue.len() {
                g.night_cursor + 1
            } else {
                g.night_queue.len() as int
            };
            assert(queue[at] == NightStep::Ravenkeeper { seat: id });
        }
    }
}

} // verus!
