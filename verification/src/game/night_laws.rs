//! What happens by night: who wakes, in which order, and what their choices do.

use crate::comms::{PrivateMessageView, PublicEventView};
use crate::error::GameError;
use crate::game::ability::info_laws::{distinct_ids, found_where_it_stands, is_evil, works};
use crate::game::day_laws::{nights_pass_by_themselves, then_published};
use crate::game::ids::SeatId;
use crate::game::night::{first_step_of, other_step_of, wake_of, NightActionPayload};
use crate::game::phase::{DayStage, NightStep, Phase};
use crate::game::seat::Seat;
use crate::game::state::GameView;
use crate::game::win::{first_where, first_where_is_first};
use crate::roles::night_order::{first_night_sheet, other_night_sheet, OtherNightSlot};
use crate::roles::{Character, CharacterType};
use vstd::prelude::*;

verus! {

/// It is night.
pub open spec fn by_night(g: GameView) -> bool {
    g.phase is FirstNight || g.phase is Night
}

/// Everybody is as before but for the Monk's marks, which dawn lifts.
pub open spec fn nobody_changed(before: Seq<Seat>, after: Seq<Seat>) -> bool {
    &&& after.len() == before.len()
    &&& forall|i: int|
        0 <= i < before.len() ==> (#[trigger] after[i]) == (Seat {
            monk_protected_tonight: after[i].monk_protected_tonight,
            ..before[i]
        })
}

/// The marks of the Monk last as long as the night does, and no longer.
pub proof fn shields_last_the_night(g: GameView)
    ensures
        ({
            let h = g.ticked();
            &&& by_night(h) ==> h.seats == g.seats
            &&& by_night(g) && !by_night(h) ==> forall|i: int|
                0 <= i < h.seats.len() ==> !(#[trigger] h.seats[i]).monk_protected_tonight
        }),
    decreases g.night_queue.len() - g.night_cursor,
{
    reveal(GameView::dawned);
    if !(g.pending_night is Some || !g.phase.night_falls() || g.night_cursor >= g.night_queue.len()
        || g.night_cursor == usize::MAX) {
        let step = g.night_queue[g.night_cursor as int];
        if wake_of(step) is None && step != NightStep::Dawn {
            shields_last_the_night(
                GameView { private_inboxes: g.step_mail(step), ..g }.advanced(),
            );
        }
    }
}

// ---------------------------------------------------------------------------
// Choices
// ---------------------------------------------------------------------------

/// A wake of `step` for the seat waits for a choice.
pub open spec fn awaits(g: GameView, step: NightStep, seat: SeatId) -> bool {
    by_night(g) && (g.pending_night matches Some(w) && w.step == step && w.seat == seat && wake_of(
        step,
    ) == Some(w))
}

/// The poison goes where a working Poisoner puts it, and is nowhere else; a Poisoner whose ability
/// does not work only lifts it.
pub proof fn the_poison_moves(g: GameView, p: int, t: int)
    requires
        distinct_ids(g.seats),
        0 <= p < g.seats.len(),
        0 <= t < g.seats.len(),
        awaits(g, NightStep::Poisoner { seat: g.seats[p].id }, g.seats[p].id),
    ensures
        g.night_acted(
            g.seats[p].id,
            NightActionPayload::PickOne { target: g.seats[t].id },
        ) matches Ok(h) && h.seats.len() == g.seats.len() && forall|i: int|
            0 <= i < g.seats.len() ==> (#[trigger] h.seats[i]).poisoned == (works(g.seats[p]) && i
                == t) && h.seats[i].alive == g.seats[i].alive && h.seats[i].true_character
                == g.seats[i].true_character,
{
    found_where_it_stands(g.seats, p);
    found_where_it_stands(g.seats, t);
    let cured = g.unpoisoned();
    assert(distinct_ids(cured.seats)) by {
        assert forall|i: int, j: int| 0 <= i < j < cured.seats.len() implies cured.seats[i].id
            != cured.seats[j].id by {
            assert(g.seats[i].id != g.seats[j].id);
        }
    }
    found_where_it_stands(cured.seats, t);
    let pending = g.pending_night->0;
    let chosen = g.choice_applied(
        pending,
        NightActionPayload::PickOne { target: g.seats[t].id },
    );
    let moved = GameView { pending_night: None, ..chosen }.advanced();
    nights_pass_by_themselves(moved);
}

/// The Monk guards whom they choose while the night lasts, if their ability works; the choice has to
/// be another living player.
pub proof fn the_monk_guards(g: GameView, m: int, t: int)
    requires
        distinct_ids(g.seats),
        0 <= m < g.seats.len(),
        0 <= t < g.seats.len(),
        awaits(g, NightStep::Monk { seat: g.seats[m].id }, g.seats[m].id),
    ensures
        ({
            let r = g.night_acted(
                g.seats[m].id,
                NightActionPayload::PickOne { target: g.seats[t].id },
            );
            &&& r is Ok <==> t != m && g.seats[t].alive
            &&& r matches Ok(h) ==> (by_night(h) ==> h.seats == (if works(g.seats[m]) {
                g.seats.update(t, Seat { monk_protected_tonight: true, ..g.seats[t] })
            } else {
                g.seats
            })) && nobody_changed(g.seats, h.seats)
        }),
{
    found_where_it_stands(g.seats, m);
    found_where_it_stands(g.seats, t);
    if t < m {
        assert(g.seats[t].id != g.seats[m].id);
    } else if m < t {
        assert(g.seats[m].id != g.seats[t].id);
    }
    let pending = g.pending_night->0;
    let chosen = g.choice_applied(
        pending,
        NightActionPayload::PickOne { target: g.seats[t].id },
    );
    let moved = GameView { pending_night: None, ..chosen }.advanced();
    nights_pass_by_themselves(moved);
    shields_last_the_night(moved);
}

/// The Butler serves whom they choose, who has to be somebody else.
pub proof fn the_butler_chooses(g: GameView, b: int, t: int)
    requires
        distinct_ids(g.seats),
        0 <= b < g.seats.len(),
        0 <= t < g.seats.len(),
        awaits(g, NightStep::Butler { seat: g.seats[b].id }, g.seats[b].id),
    ensures
        ({
            let r = g.night_acted(
                g.seats[b].id,
                NightActionPayload::PickOne { target: g.seats[t].id },
            );
            &&& r is Ok <==> t != b
            &&& r matches Ok(h) ==> nobody_changed(
                g.seats.update(b, Seat { butler_master: Some(g.seats[t].id), ..g.seats[b] }),
                h.seats,
            )
        }),
{
    found_where_it_stands(g.seats, b);
    found_where_it_stands(g.seats, t);
    if t < b {
        assert(g.seats[t].id != g.seats[b].id);
    } else if b < t {
        assert(g.seats[b].id != g.seats[t].id);
    }
    let pending = g.pending_night->0;
    let chosen = g.choice_applied(
        pending,
        NightActionPayload::PickOne { target: g.seats[t].id },
    );
    let moved = GameView { pending_night: None, ..chosen }.advanced();
    nights_pass_by_themselves(moved);
}

/// The other choices mark nobody; a Fortune Teller points at two players and the Imp or a Ravenkeeper
/// at one, and any other shape of choice is refused.
pub proof fn choices_have_their_shape(g: GameView, seat: SeatId, payload: NightActionPayload)
    requires
        by_night(g),
        g.pending_night matches Some(w) && w.seat == seat && wake_of(w.step) == Some(w),
    ensures
        ({
            let step = g.pending_night->0.step;
            let two = step is FortuneTeller;
            let r = g.night_acted(seat, payload);
            &&& r is Ok ==> if two { payload is PickTwo } else { payload is PickOne }
            &&& step is FortuneTeller || step is DemonKill || step is Ravenkeeper ==> (
            r matches Ok(h) ==> nobody_changed(g.seats, h.seats))
            &&& two && !(payload is PickTwo) || !two && !(payload is PickOne) ==> r == Err::<
                GameView,
                GameError,
            >(GameError::WrongPayload)
        }),
{
    let pending = g.pending_night->0;
    if g.night_acted(seat, payload) is Ok {
        let chosen = g.choice_applied(pending, payload);
        let moved = GameView { pending_night: None, ..chosen }.advanced();
        nights_pass_by_themselves(moved);
    }
}

/// Only the player whose wake is pending may choose, and only by night.
pub proof fn only_the_woken_choose(g: GameView, seat: SeatId, payload: NightActionPayload)
    ensures
        g.night_acted(seat, payload) is Ok ==> by_night(g) && (g.pending_night matches Some(w)
            && w.seat == seat),
        !(g.pending_night matches Some(w) && w.seat == seat) ==> g.night_acted(seat, payload)
            == Err::<GameView, GameError>(GameError::NotYourWake),
{
}

/// A choice that was made is no longer waited for: the night stands at a later step, or it is over.
pub proof fn choices_move_the_night_on(g: GameView, seat: SeatId, payload: NightActionPayload)
    requires
        g.night_cursor < usize::MAX,
    ensures
        g.night_acted(seat, payload) matches Ok(h) ==> !by_night(h) || h.night_cursor
            > g.night_cursor,
{
    if g.night_acted(seat, payload) is Ok {
        let pending = g.pending_night->0;
        let chosen = g.choice_applied(pending, payload);
        let moved = GameView { pending_night: None, ..chosen }.advanced();
        ticking_goes_forward(moved);
    }
}

proof fn ticking_goes_forward(g: GameView)
    ensures
        !by_night(g.ticked()) || g.ticked().night_cursor >= g.night_cursor,
    decreases g.night_queue.len() - g.night_cursor,
{
    reveal(GameView::dawned);
    if !(g.pending_night is Some || !g.phase.night_falls() || g.night_cursor >= g.night_queue.len()
        || g.night_cursor == usize::MAX) {
        let step = g.night_queue[g.night_cursor as int];
        if wake_of(step) is None && step != NightStep::Dawn {
            ticking_goes_forward(
                GameView { private_inboxes: g.step_mail(step), ..g }.advanced(),
            );
        }
    }
}

// ---------------------------------------------------------------------------
// Waking
// ---------------------------------------------------------------------------

/// A step in which a player chooses.
pub open spec fn chooser(step: NightStep) -> Option<SeatId> {
    match step {
        NightStep::Poisoner { seat } => Some(seat),
        NightStep::FortuneTeller { seat } => Some(seat),
        NightStep::Butler { seat } => Some(seat),
        NightStep::Monk { seat } => Some(seat),
        NightStep::DemonKill { seat } => Some(seat),
        NightStep::Ravenkeeper { seat } => Some(seat),
        _ => None,
    }
}

/// The night stops at a step in which a player chooses: that player is asked in private, and the
/// night waits for them.
pub proof fn choosers_are_woken(g: GameView, seat: SeatId)
    requires
        by_night(g),
        g.pending_night is None,
        g.night_cursor < g.night_queue.len(),
        g.night_cursor < usize::MAX,
        chooser(g.night_queue[g.night_cursor as int]) == Some(seat),
    ensures
        ({
            let h = g.ticked();
            &&& awaits(h, g.night_queue[g.night_cursor as int], seat)
            &&& h.private_inboxes == g.private_inboxes.push(
                seat,
                PrivateMessageView::NightPrompt { text: h.pending_night->0.prompt },
            )
            &&& h.seats == g.seats && h.public_log == g.public_log && h.phase == g.phase
        }),
{
}

/// Dawn ends the night: the deaths are published and cleared, the shields are lifted, and a fresh day
/// of discussion begins, numbered like the night before it.
pub proof fn dawn_breaks(g: GameView)
    requires
        by_night(g),
        g.pending_night is None,
        g.night_cursor < g.night_queue.len(),
        g.night_cursor < usize::MAX,
        g.night_queue[g.night_cursor as int] == NightStep::Dawn,
    ensures
        ({
            let h = g.ticked();
            &&& h.phase == (Phase::Day {
                day: match g.phase {
                    Phase::Night { night, .. } => night,
                    _ => 1,
                },
                stage: DayStage::Discussion,
            })
            &&& then_published(g, h, 1, PublicEventView::DiedInNight { seats: g.deaths_tonight })
            &&& h.deaths_tonight.len() == 0 && h.executed_today is None && h.pending_night is None
            &&& h.day_nominators.len() == 0 && h.day_nominees.len() == 0
                && h.closed_nominations.len() == 0 && h.current_nomination is None
            &&& h.pending_directed_wake is None
            &&& forall|i: int|
                0 <= i < h.directed_say_sent.len() ==> #[trigger] h.directed_say_sent[i] == 0
            &&& nobody_changed(g.seats, h.seats)
            &&& forall|i: int|
                0 <= i < h.seats.len() ==> !(#[trigger] h.seats[i]).monk_protected_tonight
            &&& h.private_inboxes == g.private_inboxes && h.winner == g.winner
        }),
{
    reveal(GameView::dawned);
    crate::game::laws::night_tick_continues(g);
    let n = g.public_log.events.len() as int;
    assert(g.dawned().public_log.events[n + 1].1 == PublicEventView::DiedInNight {
        seats: g.deaths_tonight,
    });
}

// ---------------------------------------------------------------------------
// The order of the night
// ---------------------------------------------------------------------------

/// The seat at `i` is the first alive whom players take for this character: by the face they were
/// given, or by what they truly are where `truly` says so.
pub open spec fn first_awake(g: GameView, i: int, c: Character, truly: bool) -> bool {
    &&& 0 <= i < g.seats.len()
    &&& g.seats[i].alive && plays(g.seats[i], c, truly)
    &&& forall|k: int| 0 <= k < i ==> !((#[trigger] g.seats[k]).alive && plays(g.seats[k], c, truly))
}

/// The seat plays this character, truly or by its face.
pub open spec fn plays(s: Seat, c: Character, truly: bool) -> bool {
    if truly || s.believed_character is None {
        s.true_character == Some(c)
    } else {
        s.believed_character == Some(c)
    }
}

proof fn wakes_go_to_the_first(g: GameView, c: Character, truly: bool, i: int)
    requires
        distinct_ids(g.seats),
    ensures
        first_awake(g, i, c, truly) ==> g.wake_seat(c, truly) == Some(g.seats[i].id),
        (forall|k: int|
            0 <= k < g.seats.len() ==> !((#[trigger] g.seats[k]).alive && plays(
                g.seats[k],
                c,
                truly,
            ))) ==> g.wake_seat(c, truly) is None,
{
    let wanted = |s: Seat| s.alive && g.wakes_as(s.id, c, truly);
    first_where_is_first(g.seats, wanted);
    assert forall|k: int| 0 <= k < g.seats.len() implies wanted(#[trigger] g.seats[k]) == (
    g.seats[k].alive && plays(g.seats[k], c, truly)) by {
        found_where_it_stands(g.seats, k);
    }
    if first_awake(g, i, c, truly) {
        assert(wanted(g.seats[i]));
        let f = first_where(g.seats, wanted)->0;
        if f < i {
            assert(wanted(g.seats[f]));
        }
    }
}

/// The characters of the first night in the order of their wakes, each with whether it wakes by what
/// it truly is.
pub open spec fn first_night_characters() -> Seq<(Character, bool)> {
    seq![
        (Character::Poisoner, true),
        (Character::Spy, true),
        (Character::Washerwoman, false),
        (Character::Librarian, false),
        (Character::Investigator, false),
        (Character::Chef, false),
        (Character::Empath, false),
        (Character::FortuneTeller, false),
        (Character::Butler, false),
    ]
}

/// The characters of later nights likewise; the Ravenkeeper wakes only by dying.
pub open spec fn other_night_characters() -> Seq<(Character, bool)> {
    seq![
        (Character::Poisoner, true),
        (Character::Monk, false),
        (Character::Spy, true),
        (Character::Imp, true),
        (Character::Ravenkeeper, false),
        (Character::Undertaker, false),
        (Character::Empath, false),
        (Character::FortuneTeller, false),
        (Character::Butler, false),
    ]
}

/// The step in which a character wakes.
pub open spec fn step_for(c: Character, seat: SeatId) -> NightStep {
    match c {
        Character::Poisoner => NightStep::Poisoner { seat },
        Character::Spy => NightStep::Spy { seat },
        Character::Washerwoman => NightStep::Washerwoman { seat },
        Character::Librarian => NightStep::Librarian { seat },
        Character::Investigator => NightStep::Investigator { seat },
        Character::Chef => NightStep::Chef { seat },
        Character::Empath => NightStep::Empath { seat },
        Character::FortuneTeller => NightStep::FortuneTeller { seat },
        Character::Butler => NightStep::Butler { seat },
        Character::Monk => NightStep::Monk { seat },
        Character::Imp => NightStep::DemonKill { seat },
        Character::Ravenkeeper => NightStep::Ravenkeeper { seat },
        Character::Undertaker => NightStep::Undertaker { seat },
        _ => NightStep::SetupMarkers,
    }
}

proof fn the_sheets_list_the_characters()
    ensures
        first_night_sheet().len() == 9,
        forall|k: int|
            0 <= k < 9 ==> (#[trigger] first_night_sheet()[k]).wakes()
                == first_night_characters()[k].0 && first_night_sheet()[k].by_true_character()
                == first_night_characters()[k].1,
        forall|k: int, seat: SeatId|
            0 <= k < 9 ==> #[trigger] first_step_of(first_night_sheet()[k], seat) == step_for(
                first_night_characters()[k].0,
                seat,
            ),
        other_night_sheet().len() == 9,
        forall|k: int|
            0 <= k < 9 ==> (#[trigger] other_night_sheet()[k]).wakes()
                == other_night_characters()[k].0 && other_night_sheet()[k].by_true_character()
                == other_night_characters()[k].1,
        forall|k: int, seat: SeatId|
            0 <= k < 9 ==> #[trigger] other_step_of(other_night_sheet()[k], seat) == step_for(
                other_night_characters()[k].0,
                seat,
            ),
        forall|k: int|
            0 <= k < 9 ==> ((#[trigger] other_night_sheet()[k]) == OtherNightSlot::Ravenkeeper
                <==> k == 4) && (other_night_sheet()[k] == OtherNightSlot::Undertaker <==> k == 5),
{
}

/// The steps of the first `n` wakes of the first night.
pub open spec fn first_wake_steps(g: GameView, n: int) -> Seq<NightStep>
    decreases n,
{
    if n <= 0 {
        seq![]
    } else {
        let (c, truly) = first_night_characters()[n - 1];
        if exists|i: int| first_awake(g, i, c, truly) {
            first_wake_steps(g, n - 1).push(
                step_for(c, g.seats[choose|i: int| first_awake(g, i, c, truly)].id),
            )
        } else {
            first_wake_steps(g, n - 1)
        }
    }
}

/// Somebody alive plays the character, so somebody is the first.
proof fn somebody_is_first(g: GameView, c: Character, truly: bool, k: int)
    requires
        0 <= k < g.seats.len(),
        g.seats[k].alive && plays(g.seats[k], c, truly),
    ensures
        exists|i: int| first_awake(g, i, c, truly),
    decreases k,
{
    if exists|j: int| 0 <= j < k && (#[trigger] g.seats[j]).alive && plays(g.seats[j], c, truly) {
        let j = choose|j: int|
            0 <= j < k && (#[trigger] g.seats[j]).alive && plays(g.seats[j], c, truly);
        somebody_is_first(g, c, truly, j);
    } else {
        assert(first_awake(g, k, c, truly));
    }
}

proof fn first_wakes_follow_the_characters(g: GameView, n: int)
    requires
        distinct_ids(g.seats),
        0 <= n <= 9,
    ensures
        g.first_wakes(first_night_sheet().take(n)) == first_wake_steps(g, n),
    decreases n,
{
    the_sheets_list_the_characters();
    if n > 0 {
        first_wakes_follow_the_characters(g, n - 1);
        let sheet = first_night_sheet();
        assert(sheet.take(n).drop_last() =~= sheet.take(n - 1));
        let (c, truly) = first_night_characters()[n - 1];
        assert(sheet[n - 1].wakes() == c);
        if exists|i: int| first_awake(g, i, c, truly) {
            let i = choose|i: int| first_awake(g, i, c, truly);
            wakes_go_to_the_first(g, c, truly, i);
            assert(first_step_of(sheet[n - 1], g.seats[i].id) == step_for(c, g.seats[i].id));
        } else {
            assert forall|k: int| 0 <= k < g.seats.len() implies !((#[trigger] g.seats[k]).alive
                && plays(g.seats[k], c, truly)) by {
                if g.seats[k].alive && plays(g.seats[k], c, truly) {
                    somebody_is_first(g, c, truly, k);
                }
            }
            wakes_go_to_the_first(g, c, truly, 0);
        }
    } else {
        assert(first_night_sheet().take(0).len() == 0);
    }
}

/// The first night: the markers, from seven players on the evil team's briefings, then the wakes of
/// those in play in the order of the sheet, then dawn. Nobody kills.
pub proof fn the_first_night_runs_in_order(g: GameView)
    requires
        distinct_ids(g.seats),
    ensures
        ({
            let minions = exists|i: int|
                0 <= i < g.seats.len() && (#[trigger] g.seats[i]).alive && is_evil(
                    g.seats[i].true_character,
                ) && g.seats[i].true_character != Some(Character::Imp);
            let briefings = if g.seats.len() < 7 {
                seq![]
            } else if minions {
                seq![NightStep::MinionBriefing, NightStep::DemonBriefing]
            } else {
                seq![NightStep::DemonBriefing]
            };
            g.first_night_steps() == seq![NightStep::SetupMarkers] + briefings + first_wake_steps(
                g,
                9,
            ) + seq![NightStep::Dawn]
        }),
{
    first_wakes_follow_the_characters(g, 9);
    the_sheets_list_the_characters();
    assert(first_night_sheet().take(9) =~= first_night_sheet());
    let wanted = |s: Seat| s.alive && crate::game::night::truly(s, CharacterType::Minion);
    first_where_is_first(g.seats, wanted);
    let minions = exists|i: int|
        0 <= i < g.seats.len() && (#[trigger] g.seats[i]).alive && is_evil(
            g.seats[i].true_character,
        ) && g.seats[i].true_character != Some(Character::Imp);
    if minions {
        let i = choose|i: int|
            0 <= i < g.seats.len() && (#[trigger] g.seats[i]).alive && is_evil(
                g.seats[i].true_character,
            ) && g.seats[i].true_character != Some(Character::Imp);
        assert(wanted(g.seats[i]));
    }
    assert((g.evil_briefings().len() == 2) <==> (g.seats.len() >= 7 && minions));
    let briefings = if g.seats.len() < 7 {
        seq![]
    } else if minions {
        seq![NightStep::MinionBriefing, NightStep::DemonBriefing]
    } else {
        seq![NightStep::DemonBriefing]
    };
    assert(g.evil_briefings() =~= briefings);
    assert(g.first_night_steps() =~= seq![NightStep::SetupMarkers] + briefings + first_wake_steps(
        g,
        9,
    ) + seq![NightStep::Dawn]);
}

/// The steps of the first `n` wakes of a later night that begins with nobody dead in it.
pub open spec fn later_wake_steps(g: GameView, n: int) -> Seq<NightStep>
    decreases n,
{
    if n <= 0 {
        seq![]
    } else {
        let (c, truly) = other_night_characters()[n - 1];
        if c != Character::Ravenkeeper && (c == Character::Undertaker ==> g.executed_today is Some)
            && exists|i: int| first_awake(g, i, c, truly) {
            later_wake_steps(g, n - 1).push(
                step_for(c, g.seats[choose|i: int| first_awake(g, i, c, truly)].id),
            )
        } else {
            later_wake_steps(g, n - 1)
        }
    }
}

proof fn later_wakes_follow_the_characters(g: GameView, n: int)
    requires
        distinct_ids(g.seats),
        g.deaths_tonight.len() == 0,
        0 <= n <= 9,
    ensures
        g.other_wakes(other_night_sheet().take(n)) == later_wake_steps(g, n),
    decreases n,
{
    the_sheets_list_the_characters();
    if n > 0 {
        later_wakes_follow_the_characters(g, n - 1);
        let sheet = other_night_sheet();
        assert(sheet.take(n).drop_last() =~= sheet.take(n - 1));
        let (c, truly) = other_night_characters()[n - 1];
        assert(sheet[n - 1].wakes() == c);
        let before = later_wake_steps(g, n - 1);
        if exists|i: int| first_awake(g, i, c, truly) {
            let i = choose|i: int| first_awake(g, i, c, truly);
            wakes_go_to_the_first(g, c, truly, i);
            assert(other_step_of(sheet[n - 1], g.seats[i].id) == step_for(c, g.seats[i].id));
        } else {
            assert forall|k: int| 0 <= k < g.seats.len() implies !((#[trigger] g.seats[k]).alive
                && plays(g.seats[k], c, truly)) by {
                if g.seats[k].alive && plays(g.seats[k], c, truly) {
                    somebody_is_first(g, c, truly, k);
                }
            }
            wakes_go_to_the_first(g, c, truly, 0);
        }
        assert(g.other_wakes(sheet.take(n)) =~= later_wake_steps(g, n));
    } else {
        assert(other_night_sheet().take(0).len() == 0);
    }
}

/// A later night: the wakes of those in play in the order of the sheet, the Undertaker only after an
/// execution, then dawn. The Imp kills in it, and nothing is set up again.
pub proof fn later_nights_run_in_order(g: GameView)
    requires
        distinct_ids(g.seats),
        g.deaths_tonight.len() == 0,
    ensures
        g.other_night_steps() == later_wake_steps(g, 9) + seq![NightStep::Dawn],
{
    later_wakes_follow_the_characters(g, 9);
    the_sheets_list_the_characters();
    assert(other_night_sheet().take(9) =~= other_night_sheet());
    assert(g.other_night_steps() =~= later_wake_steps(g, 9) + seq![NightStep::Dawn]);
}

/// Of those who died tonight exactly the true Ravenkeepers wake for it.
pub proof fn slain_ravenkeepers_wake(g: GameView, dead: Seq<SeatId>, i: int)
    requires
        distinct_ids(g.seats),
        0 <= i < g.seats.len(),
    ensures
        g.raven_wakes(dead).contains(NightStep::Ravenkeeper { seat: g.seats[i].id })
            <==> dead.contains(g.seats[i].id) && g.seats[i].true_character == Some(
            Character::Ravenkeeper,
        ),
    decreases dead.len(),
{
    found_where_it_stands(g.seats, i);
    let id = g.seats[i].id;
    let wake = NightStep::Ravenkeeper { seat: id };
    if dead.len() > 0 {
        let front = dead.drop_last();
        let fewer = g.raven_wakes(front);
        let all = g.raven_wakes(dead);
        slain_ravenkeepers_wake(g, front, i);
        assert(dead[dead.len() - 1] == dead.last());
        if front.contains(id) {
            assert(dead[front.index_of(id)] == id);
        }
        if dead.contains(id) && dead.last() != id {
            assert(front[dead.index_of(id)] == id);
        }
        if all.len() > fewer.len() {
            assert(all[fewer.len() as int] == (NightStep::Ravenkeeper { seat: dead.last() }));
            if fewer.contains(wake) {
                assert(all[fewer.index_of(wake)] == wake);
            }
            if all.contains(wake) && dead.last() != id {
                assert(fewer[all.index_of(wake)] == wake);
            }
        }
    }
}

} // verus!
