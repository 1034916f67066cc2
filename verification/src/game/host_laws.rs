//! What the Storyteller's decisions do, and what skipping them does.

use crate::comms::PrivateMessageView;
use crate::error::GameError;
use crate::game::ability::info_laws::{distinct_ids, found_where_it_stands, told_by};
use crate::game::ability::kill_laws::{
    became_the_imp, is_living_minion, is_safe, only_dies, star_passed, the_host_decides_the_bounce,
    the_host_passes_the_star,
};
use crate::game::day_laws::nights_pass_by_themselves;
use crate::game::ids::SeatId;
use crate::game::laws::{continues, info_changes_only_the_butler, night_tick_continues};
use crate::game::night::{ChoiceSchema, NightActionPayload};
use crate::game::night_laws::by_night;
use crate::game::phase::NightStep;
use crate::game::seat::{ascending_sorts, Seat};
use crate::game::st_policy::{
    HostDecision, MayorRedirectChoice, NightInfoPayload, PendingHostDecision,
};
use crate::game::state::GameView;
use crate::game::win::{first_where, first_where_is_first};
use crate::rng::draws_are_in_range;
use crate::roles::Character;
use vstd::prelude::*;

verus! {

/// Everybody lives, is and is poisoned as before.
pub open spec fn same_players(before: Seq<Seat>, after: Seq<Seat>) -> bool {
    &&& after.len() == before.len()
    &&& forall|i: int|
        0 <= i < before.len() ==> (#[trigger] after[i]).alive == before[i].alive
            && after[i].true_character == before[i].true_character && after[i].poisoned
            == before[i].poisoned && after[i].id == before[i].id
            && after[i].believed_character == before[i].believed_character
            && after[i].is_drunk_outsider == before[i].is_drunk_outsider
}

/// The next private message went to the seat with this text.
pub open spec fn then_told(g: GameView, h: GameView, seat: SeatId, text: Seq<char>) -> bool {
    let n = g.private_inboxes.entries.len() as int;
    &&& g.private_inboxes.entries.is_prefix_of(h.private_inboxes.entries)
    &&& n < h.private_inboxes.entries.len()
    &&& h.private_inboxes.entries[n].0 == seat
    &&& h.private_inboxes.entries[n].2 == PrivateMessageView::NightResult { text }
}

/// Going on with the night changes nobody.
proof fn resuming_changes_nobody(g: GameView)
    ensures
        same_players(g.seats, g.resumed().seats),
        g.resumed().winner == g.winner,
        g.resumed().pending_host == g.pending_host,
        continues(g, g.resumed()),
{
    if g.phase.night_falls() {
        nights_pass_by_themselves(g.advanced());
        night_tick_continues(g.advanced());
        ticking_asks_no_host(g.advanced());
    }
}

proof fn ticking_asks_no_host(g: GameView)
    ensures
        g.ticked().pending_host == g.pending_host,
    decreases g.night_queue.len() - g.night_cursor,
{
    reveal(GameView::dawned);
    if !(g.pending_night is Some || !g.phase.night_falls() || g.night_cursor >= g.night_queue.len()
        || g.night_cursor == usize::MAX) {
        let step = g.night_queue[g.night_cursor as int];
        if crate::game::night::wake_of(step) is None && step
            != crate::game::phase::NightStep::Dawn {
            ticking_asks_no_host(GameView { private_inboxes: g.step_mail(step), ..g }.advanced());
        }
    }
}

/// An attack on the Mayor goes where the host says: the Mayor dies, or the player they name if the
/// Demon can kill that one, or nobody; the question is settled by it.
pub proof fn hosts_redirect_the_attack(g: GameView, m: int, t: int, choice: MayorRedirectChoice)
    requires
        distinct_ids(g.seats),
        0 <= m < g.seats.len(),
        0 <= t < g.seats.len(),
        g.seats[m].alive && g.seats[m].true_character == Some(Character::Mayor),
        g.seats[t].true_character != Some(Character::Imp),
        g.pending_host matches Some(PendingHostDecision::MayorRedirect { mayor, .. }) && mayor
            == g.seats[m].id,
        choice matches MayorRedirectChoice::KillOther { target } ==> target == g.seats[t].id,
    ensures
        g.host_decided(HostDecision::MayorRedirect { choice }) matches Ok(h) && {
            &&& h.pending_host is None
            &&& choice is KillMayor ==> only_dies(g.seats, h.seats, m)
            &&& choice is KillOther && !is_safe(g.seats[t]) ==> only_dies(g.seats, h.seats, t)
            &&& choice is Nobody || (choice is KillOther && is_safe(g.seats[t])) ==> same_players(
                g.seats,
                h.seats,
            )
        },
{
    reveal(GameView::host_decided);
    let clear = g.undecided_cleared();
    the_host_decides_the_bounce(clear, m, t);
    let struck = clear.mayor_decided(g.seats[m].id, choice).0;
    resuming_changes_nobody(struck);
    deciding_leaves_no_question(clear, g.seats[m].id, choice);
    let h = struck.resumed();
    if choice is KillMayor {
        assert forall|i: int| 0 <= i < g.seats.len() && i != m implies (
        #[trigger] h.seats[i]).alive == g.seats[i].alive by {
            assert(struck.seats[i].alive == clear.seats[i].alive);
        }
    }
    if choice is KillOther && !is_safe(g.seats[t]) {
        assert forall|i: int| 0 <= i < g.seats.len() && i != t implies (
        #[trigger] h.seats[i]).alive == g.seats[i].alive by {
            assert(struck.seats[i].alive == clear.seats[i].alive);
        }
    }
}

proof fn deciding_leaves_no_question(g: GameView, mayor: SeatId, choice: MayorRedirectChoice)
    requires
        g.pending_host is None,
    ensures
        g.mayor_decided(mayor, choice).0.pending_host is None,
{
    reveal(GameView::demon_slew);
    reveal(GameView::demon_succeeded);
    reveal(GameView::win_checked);
}

/// A starpass goes to the Minion the host picks from those offered, and to nobody else; any other
/// pick is refused.
pub proof fn hosts_pick_the_heir(g: GameView, d: int, k: int)
    requires
        distinct_ids(g.seats),
        0 <= d < g.seats.len(),
        0 <= k < g.seats.len(),
        d != k,
        g.seats[d].alive,
        is_living_minion(g.seats[k]),
        g.pending_host matches Some(PendingHostDecision::StarpassPick { dead_imp, .. }) && dead_imp
            == g.seats[d].id,
    ensures
        ({
            let offered = g.pending_host->0->StarpassPick_minions@;
            let r = g.host_decided(HostDecision::StarpassPick { minion: g.seats[k].id });
            &&& r is Ok <==> offered.contains(g.seats[k].id)
            &&& r matches Ok(h) ==> only_dies(g.seats, h.seats, d) && became_the_imp(
                g.seats[k],
                h.seats[k],
            ) && h.winner == g.winner && forall|i: int|
                0 <= i < g.seats.len() && i != k ==> (#[trigger] h.seats[i]).true_character
                    == g.seats[i].true_character
        }),
{
    reveal(GameView::host_decided);
    let clear = g.undecided_cleared();
    the_host_passes_the_star(clear, d, k);
    let passed = clear.killed_tonight(g.seats[d].id).starpassed_to(g.seats[k].id);
    resuming_changes_nobody(passed);
    let h = passed.resumed();
    assert(star_passed(clear, passed, d, k));
    assert forall|i: int| 0 <= i < g.seats.len() && i != k implies (
    #[trigger] h.seats[i]).true_character == g.seats[i].true_character by {
        assert(passed.seats[i].true_character == clear.seats[i].true_character);
    }
    assert forall|i: int| 0 <= i < g.seats.len() && i != d implies (#[trigger] h.seats[i]).alive
        == g.seats[i].alive by {
        assert(passed.seats[i].alive == clear.seats[i].alive);
    }
}

/// The host's words are what the waiting player is told, and nobody is changed by them.
pub proof fn hosts_word_the_result(g: GameView, seat: SeatId, text: String)
    requires
        g.pending_host matches Some(PendingHostDecision::NightInfo { seat: waiting, .. })
            && waiting == seat,
    ensures
        g.host_decided(HostDecision::NightInfo { text }) matches Ok(h) && then_told(
            g,
            h,
            seat,
            text@,
        ) && h.pending_host is None && same_players(g.seats, h.seats),
{
    reveal(GameView::host_decided);
    let told = g.undecided_cleared().whisper(
        seat,
        PrivateMessageView::NightResult { text: text@ },
    );
    resuming_changes_nobody(told);
    let n = g.private_inboxes.entries.len() as int;
    assert(told.private_inboxes.entries[n].0 == seat);
}

/// A decision that does not answer the open question is refused, and so is one where none is open.
pub proof fn misfitting_decisions_are_refused(g: GameView, decision: HostDecision)
    ensures
        g.pending_host is None ==> g.host_decided(decision) is Err,
        g.host_decided(decision) is Ok ==> match g.pending_host {
            Some(PendingHostDecision::MayorRedirect { .. }) => decision is MayorRedirect,
            Some(PendingHostDecision::StarpassPick { .. }) => decision is StarpassPick,
            Some(PendingHostDecision::NightInfo { .. }) => decision is NightInfo,
            _ => false,
        },
{
    reveal(GameView::host_decided);
}

/// A skipped attack on the Mayor kills nobody; the question is gone and the night goes on.
pub proof fn skipped_attacks_kill_nobody(g: GameView)
    requires
        g.pending_host matches Some(PendingHostDecision::MayorRedirect { .. }),
    ensures
        g.host_skipped().1 is Ok,
        same_players(g.seats, g.host_skipped().0.seats),
        g.host_skipped().0.pending_host is None,
{
    reveal(GameView::host_skipped);
    resuming_changes_nobody(g.undecided_cleared());
}

/// A skipped starpass goes to one of the Minions that were offered.
pub proof fn skipped_stars_go_to_an_offered_minion(g: GameView, d: int)
    requires
        distinct_ids(g.seats),
        0 <= d < g.seats.len(),
        g.seats[d].alive,
        g.pending_host matches Some(PendingHostDecision::StarpassPick { dead_imp, minions })
            && dead_imp == g.seats[d].id && minions@.len() > 0 && forall|j: int|
            0 <= j < minions@.len() ==> exists|k: int|
                0 <= k < g.seats.len() && k != d && (#[trigger] g.seats[k]).id == (
                #[trigger] minions@[j]) && is_living_minion(g.seats[k]),
    ensures
        g.host_skipped().1 is Ok,
        ({
            let h = g.host_skipped().0;
            let offered = g.pending_host->0->StarpassPick_minions@;
            &&& only_dies(g.seats, h.seats, d)
            &&& exists|k: int|
                0 <= k < g.seats.len() && offered.contains((#[trigger] g.seats[k]).id)
                    && became_the_imp(g.seats[k], h.seats[k])
        }),
{
    reveal(GameView::host_skipped);
    let offered = g.pending_host->0->StarpassPick_minions@;
    let sorted = crate::game::seat::ascending(offered);
    ascending_sorts(offered);
    draws_are_in_range(g.night_stream("starpass:c"@), sorted.len());
    let heir = sorted[g.night_stream("starpass:c"@).choice(sorted.len()).0];
    assert(sorted.to_multiset().contains(heir)) by {
        sorted.to_multiset_ensures();
    }
    offered.to_multiset_ensures();
    let j = offered.index_of(heir);
    let k = choose|k: int|
        0 <= k < g.seats.len() && k != d && (#[trigger] g.seats[k]).id == offered[j]
            && is_living_minion(g.seats[k]);
    let clear = g.undecided_cleared();
    the_host_passes_the_star(clear, d, k);
    let passed = clear.killed_tonight(g.seats[d].id).starpassed_to(heir);
    resuming_changes_nobody(passed);
    let h = passed.resumed();
    assert(became_the_imp(g.seats[k], h.seats[k]));
    assert forall|i: int| 0 <= i < g.seats.len() && i != d implies (#[trigger] h.seats[i]).alive
        == g.seats[i].alive by {
        assert(passed.seats[i].alive == clear.seats[i].alive);
    }
}

/// Skipped information is what the engine tells: the same message as a resolved step, to the same
/// seat.
pub proof fn skipped_information_is_resolved(g: GameView, seat: SeatId, text: Seq<char>)
    requires
        g.pending_host matches Some(PendingHostDecision::NightInfo { step, payload, .. })
            && told_by(
            g.undecided_cleared(),
            step,
            match payload {
                Some(NightInfoPayload::PickTwo { a, b }) => Some(
                    NightActionPayload::PickTwo { a, b },
                ),
                Some(NightInfoPayload::PickOne { target }) => Some(
                    NightActionPayload::PickOne { target },
                ),
                None => None,
            },
        ) == Some(seq![(seat, PrivateMessageView::NightResult { text })]),
    ensures
        g.host_skipped().1 is Ok,
        then_told(g, g.host_skipped().0, seat, text),
        g.host_skipped().0.pending_host is None,
{
    reveal(GameView::host_skipped);
    let clear = g.undecided_cleared();
    let step = g.pending_host->0->NightInfo_step;
    let choice = crate::game::host::night_choice(g.pending_host->0->NightInfo_payload);
    telling_is_mail(clear, step, choice, seat, text);
    let told = clear.informed(step, choice)->Ok_0.0;
    resuming_changes_nobody(told);
}

proof fn telling_is_mail(
    g: GameView,
    step: NightStep,
    choice: Option<NightActionPayload>,
    seat: SeatId,
    text: Seq<char>,
)
    requires
        told_by(g, step, choice) == Some(seq![(seat, PrivateMessageView::NightResult { text })]),
    ensures
        g.informed(step, choice) matches Ok((h, _)) && then_told(g, h, seat, text)
            && h.pending_host == g.pending_host,
{
    info_changes_only_the_butler(g, step, choice);
    let list = g.informed(step, choice)->Ok_0.1;
    assert(list.len() == 1);
    assert(list[0] == (seat, PrivateMessageView::NightResult { text }));
}

/// Only the host skips; with nothing to skip it is refused; and a skipped wake is settled by a
/// choice that the wake allows, of its own seat.
pub proof fn skipping_chooses_for_the_woken(g: GameView, host: Seq<char>)
    ensures
        !g.is_host(host) ==> g.skipped(host) == (g, Err::<(), GameError>(GameError::Unauthorized)),
        g.pending_host is None && g.pending_night is None ==> g.skipped(host).1 is Err
            && g.skipped(host).0 == g,
        g.pending_host is None && g.skipped(host).1 is Ok ==> by_night(g) && (
        g.pending_night matches Some(w) && exists|payload: NightActionPayload|
            (#[trigger] g.night_acted(w.seat, payload)) == Ok::<GameView, GameError>(
                g.skipped(host).0,
            ) && (w.schema is PickOne ==> payload is PickOne) && (w.schema is PickTwo ==> payload
                is PickTwo)),
{
    if g.pending_host is None && g.skipped(host).1 is Ok {
        let w = g.pending_night->0;
        let payload = g.default_payload(w)->Ok_0;
        assert(g.night_acted(w.seat, payload) == Ok::<GameView, GameError>(g.skipped(host).0));
    }
}

/// The default target of a skipped wake is the first seat that may be chosen.
pub proof fn skipped_wakes_take_the_first_target(g: GameView, host: Seq<char>, t: int)
    requires
        distinct_ids(g.seats),
        g.is_host(host),
        g.pending_host is None,
        by_night(g),
        0 <= t < g.seats.len(),
        g.pending_night matches Some(w) && (w.schema matches ChoiceSchema::PickOne {
            living_only,
            exclude_self,
            ..
        } && (living_only ==> g.seats[t].alive) && (exclude_self ==> g.seats[t].id != w.seat)
            && forall|k: int|
            0 <= k < t ==> (living_only && !(#[trigger] g.seats[k]).alive) || (exclude_self
                && g.seats[k].id == w.seat)),
    ensures
        g.skipped(host).1 is Ok,
        g.night_acted(
            g.pending_night->0.seat,
            NightActionPayload::PickOne { target: g.seats[t].id },
        ) == Ok::<GameView, GameError>(g.skipped(host).0),
{
    let w = g.pending_night->0;
    if let ChoiceSchema::PickOne { living_only, exclude_self, .. } = w.schema {
        let fits = |s: Seat| !(living_only && !s.alive) && !(exclude_self && s.id == w.seat);
        first_where_is_first(g.seats, fits);
        assert(fits(g.seats[t]));
        let f = first_where(g.seats, fits)->0;
        if f < t {
            assert(fits(g.seats[f]));
        }
        assert(f == t);
        found_where_it_stands(g.seats, t);
    }
}

} // verus!
