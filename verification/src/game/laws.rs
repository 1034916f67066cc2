//! What holds of every game, whatever is done to it.

use crate::comms::{PrivateInboxesView, PrivateMessageView, PublicEventView};
use crate::error::GameError;
use crate::game::ability::evil::KillResult;
use crate::game::ability::protect::{monk_protected, soldier_immune};
use crate::game::day::{
    block_leader, carries, strictly_leads, voted_by, ClosedNomination, OpenNominationView,
    MAYOR_LIVING,
};
use crate::game::ids::SeatId;
use crate::game::night::{
    demons_told, minions_briefed, wake_of, NightActionPayload, PendingWakeView,
};
use crate::game::phase::{DayStage, EndReason, NightStep, Phase, Winner};
use crate::game::seat::{
    head_count, seat_index, seat_index_by_ids, seat_index_is_first, seat_of, with_seat, Seat,
};
use crate::game::setup::{face_ok, StartOpts};
use crate::game::st_policy::{HostDecision, MayorRedirectChoice, PendingHostDecision};
use crate::game::start::{identities_told, seats_dealt};
use crate::game::state::{GameView, RoleAssignment, DIRECTED_SAY_CAP};
use crate::game::win::{
    first_where, first_where_is_first, living_imp, ready_scarlet_woman, turned_imp,
    you_are_the_imp, SCARLET_WOMAN_LIVING,
};
use crate::roles::Character;
use vstd::prelude::*;

verus! {

/// What may become of a seat in the course of a game: it keeps its place and name, the dead stay
/// dead, what is spent once stays spent, and who has a character has one from then on.
pub open spec fn seat_continues(a: Seat, b: Seat) -> bool {
    &&& a.id == b.id
    &&& a.display_name == b.display_name
    &&& b.alive ==> a.alive
    &&& !a.alive && !a.ghost_vote_available ==> !b.ghost_vote_available
    &&& a.slayer_used ==> b.slayer_used
    &&& a.virgin_ability_used ==> b.virgin_ability_used
    &&& a.true_character is Some ==> b.true_character is Some
}

/// What may become of the seats.
pub open spec fn seats_continue(a: Seq<Seat>, b: Seq<Seat>) -> bool {
    &&& a.len() == b.len()
    &&& forall|i: int| 0 <= i < a.len() ==> seat_continues(a[i], #[trigger] b[i])
}

/// What may become of a game: the seats continue, both records only grow, the tokens and the
/// source of draws stay, and a winner stays the winner.
pub open spec fn continues(a: GameView, b: GameView) -> bool {
    &&& seats_continue(a.seats, b.seats)
    &&& a.public_log.grows_to(b.public_log)
    &&& a.private_inboxes.grows_to(b.private_inboxes)
    &&& a.tokens == b.tokens
    &&& a.id == b.id && a.seed == b.seed && a.secret_salt == b.secret_salt && a.rng == b.rng
    &&& a.winner is Some ==> b.winner == a.winner
}

/// Going on twice is going on.
pub proof fn continues_chain(a: GameView, b: GameView, c: GameView)
    requires
        continues(a, b),
        continues(b, c),
    ensures
        continues(a, c),
{
    assert forall|i: int| 0 <= i < a.seats.len() implies seat_continues(
        a.seats[i],
        #[trigger] c.seats[i],
    ) by {
        assert(seat_continues(a.seats[i], b.seats[i]));
        assert(seat_continues(b.seats[i], c.seats[i]));
    }
}

proof fn demon_succeeded_continues(g: GameView, alive_before: u32)
    ensures
        continues(g, g.demon_succeeded(alive_before)),
{
    reveal(GameView::demon_succeeded);
    let wanted = |s: Seat| ready_scarlet_woman(s);
    first_where_is_first(g.seats, wanted);
}

proof fn win_checked_continues(g: GameView)
    ensures
        continues(g, g.win_checked()),
{
    reveal(GameView::win_checked);
}

proof fn killed_tonight_continues(g: GameView, seat: SeatId)
    ensures
        continues(g, g.killed_tonight(seat)),
{
    seat_index_is_first(g.seats, seat);
}

proof fn demon_slew_continues(g: GameView, seat: SeatId)
    ensures
        continues(g, g.demon_slew(seat)),
{
    reveal(GameView::demon_slew);
    let killed = g.killed_tonight(seat);
    killed_tonight_continues(g, seat);
    match seat_of(g.seats, seat) {
        Some(s) => {
            let cured = if s.true_character == Some(Character::Poisoner) {
                killed.unpoisoned()
            } else {
                killed
            };
            assert(continues(killed, cured));
            let woken = if s.face() == Some(Character::Ravenkeeper) {
                cured.raven_wake_inserted(seat)
            } else {
                cured
            };
            assert(continues(cured, woken));
            let followed = if s.true_character == Some(Character::Imp) {
                woken.demon_succeeded(head_count(g.seats))
            } else {
                woken
            };
            demon_succeeded_continues(woken, head_count(g.seats));
            win_checked_continues(followed);
            continues_chain(g, killed, cured);
            continues_chain(g, cured, woken);
            continues_chain(g, woken, followed);
            continues_chain(g, followed, followed.win_checked());
        },
        None => {
            win_checked_continues(killed);
            continues_chain(g, killed, killed.win_checked());
        },
    }
}

proof fn starpassed_continues(g: GameView, new_imp: SeatId)
    ensures
        continues(g, g.starpassed_to(new_imp)),
{
    reveal(GameView::starpassed_to);
    seat_index_is_first(g.seats, new_imp);
    let turned = match seat_of(g.seats, new_imp) {
        Some(s) => {
            let h = GameView { seats: with_seat(g.seats, new_imp, turned_imp(s)), ..g };
            assert(continues(g, h));
            assert(continues(h, h.unpoisoned()));
            continues_chain(g, h, h.unpoisoned());
            if s.true_character == Some(Character::Poisoner) { h.unpoisoned() } else { h }
        },
        None => g,
    };
    let told = turned.whisper(new_imp, crate::game::win::you_are_the_imp());
    assert(continues(turned, told));
    win_checked_continues(told);
    continues_chain(g, turned, told);
    continues_chain(g, told, told.win_checked());
}

/// The Imp's night kill keeps the game going: nobody comes back to life, nothing is unsaid, a
/// winner stays.
pub proof fn demon_kill_continues(g: GameView, demon: SeatId, target: SeatId)
    ensures
        continues(g, g.demon_kill(demon, target).0),
{
    reveal(GameView::demon_kill);
    reveal(GameView::starpass);
    reveal(GameView::attacked);
    reveal(GameView::mayor_bounced);
    killed_tonight_continues(g, demon);
    let dead = g.killed_tonight(demon);
    win_checked_continues(dead);
    continues_chain(g, dead, dead.win_checked());
    if dead.living_minions().len() > 0 {
        let minions = dead.living_minions();
        let new_imp = minions[dead.night_stream("starpass:c"@).choice(minions.len()).0];
        starpassed_continues(dead, new_imp);
        continues_chain(g, dead, dead.starpassed_to(new_imp));
    }
    demon_slew_continues(g, target);
    let candidates = g.bounce_candidates(target);
    if candidates.len() > 0 {
        demon_slew_continues(
            g,
            candidates[g.night_stream("mayor_bounce:c"@).choice(candidates.len()).0],
        );
    }
}

proof fn minions_briefed_grows(boxes: PrivateInboxesView, table: Seq<Seat>, upto: Seq<Seat>)
    ensures
        boxes.grows_to(minions_briefed(boxes, table, upto)),
    decreases upto.len(),
{
    if upto.len() > 0 {
        minions_briefed_grows(boxes, table, upto.drop_last());
    }
}

proof fn demons_told_grows(boxes: PrivateInboxesView, text: Seq<char>, upto: Seq<Seat>)
    ensures
        boxes.grows_to(demons_told(boxes, text, upto)),
    decreases upto.len(),
{
    if upto.len() > 0 {
        demons_told_grows(boxes, text, upto.drop_last());
    }
}

/// Running the night machine keeps the game going, and comes to a halt: a second run changes
/// nothing.
pub proof fn night_tick_continues(g: GameView)
    ensures
        continues(g, g.ticked()),
        g.ticked().ticked() == g.ticked(),
        g.ticked().pending_night is Some || !g.ticked().phase.night_falls()
            || g.ticked().night_cursor >= g.ticked().night_queue.len() || g.ticked().night_cursor
            == usize::MAX,
    decreases g.night_queue.len() - g.night_cursor,
{
    reveal(GameView::dawned);
    if g.pending_night is Some || !g.phase.night_falls() || g.night_cursor >= g.night_queue.len()
        || g.night_cursor == usize::MAX {
    } else {
        let step = g.night_queue[g.night_cursor as int];
        if wake_of(step) is None && step != NightStep::Dawn {
            minions_briefed_grows(g.private_inboxes, g.seats, g.seats);
            demons_told_grows(
                g.private_inboxes,
                crate::game::night::demon_briefing(g.seats, g.demon_bluffs),
                g.seats,
            );
            let h = GameView { private_inboxes: g.step_mail(step), ..g }.advanced();
            assert(continues(g, h));
            night_tick_continues(h);
            continues_chain(g, h, h.ticked());
        }
    }
}

/// The fall of a night keeps the game going.
pub proof fn night_entered_continues(g: GameView, night: u32)
    ensures
        continues(g, g.night_entered(night)),
{
    reveal(GameView::night_entered);
    let fallen = GameView { deaths_tonight: seq![], pending_night: None, ..g };
    let begun = GameView {
        phase: Phase::Night { night, cursor: 0 },
        night_queue: fallen.other_night_steps(),
        night_cursor: 0,
        ..fallen
    }.announce("Night falls. Eyes closed."@);
    assert(continues(g, begun));
    night_tick_continues(begun);
    continues_chain(g, begun, begun.ticked());
}

/// An execution keeps an undecided game going.
pub proof fn execution_continues(g: GameView, seat: SeatId)
    requires
        g.winner is None,
    ensures
        continues(g, g.executed(seat)),
{
    reveal(GameView::executed);
    seat_index_is_first(g.seats, seat);
    let alive_before = head_count(g.seats);
    let found = seat_of(g.seats, seat);
    let buried = match found {
        Some(s) => if s.alive {
            GameView {
                seats: with_seat(
                    g.seats,
                    seat,
                    Seat { alive: false, ghost_vote_available: true, ..s },
                ),
                ..g
            }
        } else {
            g
        },
        None => g,
    };
    assert(continues(g, buried));
    let told = GameView { executed_today: Some(seat), ..buried }.publish(
        PublicEventView::Executed { seat },
    ).publish(PublicEventView::PlayerDied { seat });
    assert(continues(buried, told));
    continues_chain(g, buried, told);
    match found {
        None => {
            win_checked_continues(told);
            continues_chain(g, told, told.win_checked());
        },
        Some(s) => {
            let cured = if s.true_character == Some(Character::Poisoner) {
                told.unpoisoned()
            } else {
                told
            };
            assert(continues(told, cured));
            continues_chain(g, told, cured);
            if s.true_character == Some(Character::Saint) && !s.disabled() {
                assert(continues(cured, cured.ended(Winner::Evil, EndReason::SaintExecuted)));
                continues_chain(g, cured, cured.ended(Winner::Evil, EndReason::SaintExecuted));
            } else if s.true_character == Some(Character::Imp) {
                let followed = cured.demon_succeeded(alive_before);
                demon_succeeded_continues(cured, alive_before);
                win_checked_continues(followed);
                continues_chain(g, cured, followed);
                continues_chain(g, followed, followed.win_checked());
            } else {
                win_checked_continues(cured);
                continues_chain(g, cured, cured.win_checked());
            }
        },
    }
}

/// The end of a day's nominations keeps an undecided game going.
pub proof fn day_end_continues(g: GameView, day: u32)
    requires
        g.winner is None,
    ensures
        continues(g, g.day_closed(day)),
{
    reveal(GameView::day_closed);
    let counted = g.tallied();
    assert(continues(g, counted));
    let judged = if counted.executed_today is Some {
        counted
    } else {
        match block_leader(counted.closed_nominations, head_count(counted.seats)) {
            Some(leader) => {
                execution_continues(counted, leader);
                counted.executed(leader)
            },
            None => {
                let spared = counted.publish(PublicEventView::NoExecution).announce(
                    "No execution today."@,
                );
                assert(continues(counted, spared));
                let won = spared.ended(Winner::Good, EndReason::MayorThreeNoExec);
                assert(continues(spared, won));
                win_checked_continues(spared);
                continues_chain(counted, spared, won);
                continues_chain(counted, spared, spared.win_checked());
                if spared.mayor_wins() { won } else { spared.win_checked() }
            },
        }
    };
    assert(continues(counted, judged));
    continues_chain(g, counted, judged);
    if !judged.over() {
        night_entered_continues(judged, crate::game::day::next_day(day));
        continues_chain(
            g,
            judged,
            judged.night_entered(crate::game::day::next_day(day)),
        );
    }
}

/// The end of a finished day keeps the game going.
pub proof fn day_auto_ended_continues(g: GameView)
    ensures
        continues(g, g.day_auto_ended()),
{
    reveal(GameView::day_auto_ended);
    if let Phase::Day { day, stage: DayStage::Nominations } = g.phase {
        if g.winner is None {
            day_end_continues(g, day);
        }
    }
}

/// Closing a complete vote keeps the game going.
pub proof fn closed_when_complete_continues(g: GameView)
    ensures
        continues(g, g.closed_when_complete()),
{
    reveal(GameView::closed_when_complete);
    assert(continues(g, g.tallied()));
    day_auto_ended_continues(g.tallied());
    continues_chain(g, g.tallied(), g.tallied().day_auto_ended());
}

/// A granted vote keeps the game going.
pub proof fn voted_continues(g: GameView, seat: SeatId, nominee: SeatId, support: bool)
    ensures
        g.voted(seat, nominee, support) matches Ok(h) ==> continues(g, h),
{
    reveal(GameView::voted);
    if g.voted(seat, nominee, support) is Ok {
        seat_index_is_first(g.seats, seat);
        let open = g.current_nomination->0;
        let voter = seat_of(g.seats, seat)->0;
        let spent = if !voter.alive && support {
            GameView {
                seats: with_seat(g.seats, seat, Seat { ghost_vote_available: false, ..voter }),
                ..g
            }
        } else {
            g
        };
        assert(continues(g, spent));
        let cast = GameView {
            current_nomination: Some(
                OpenNominationView { votes: open.votes.push((seat, support)), ..open },
            ),
            ..spent.publish(PublicEventView::VoteCast { seat, nominee, support })
        };
        assert(continues(spent, cast));
        continues_chain(g, spent, cast);
        closed_when_complete_continues(cast);
        continues_chain(g, cast, cast.closed_when_complete());
    }
}

/// A vote window that opens keeps the game going.
pub proof fn vote_window_continues(g: GameView, by: SeatId, target: SeatId)
    ensures
        continues(g, g.vote_window_opened(by, target)),
{
    reveal(GameView::vote_window_opened);
    let opened = GameView {
        current_nomination: Some(OpenNominationView { by, target, votes: seq![], passes: seq![] }),
        ..g
    };
    assert(continues(g, opened));
    voted_continues(opened, by, target, true);
    if let Ok(h) = opened.voted(by, target, true) {
        continues_chain(g, opened, h);
    }
}

proof fn virgin_nominated_continues(g: GameView, by: SeatId, target: SeatId)
    requires
        g.winner is None,
        seat_of(g.seats, target) is Some,
    ensures
        continues(g, g.virgin_nominated(by, target)),
{
    reveal(GameView::virgin_nominated);
    seat_index_is_first(g.seats, target);
    let virgin = seat_of(g.seats, target)->0;
    let spent = GameView {
        seats: with_seat(g.seats, target, Seat { virgin_ability_used: true, ..virgin }),
        ..g
    }.nomination_recorded(by, target);
    assert(continues(g, spent));
    let announced = spent.announce("The Virgin's power triggers. The nominator is executed."@);
    assert(continues(spent, announced));
    let shot = announced.executed(by);
    execution_continues(announced, by);
    day_auto_ended_continues(shot);
    vote_window_continues(spent, by, target);
    continues_chain(spent, announced, shot);
    continues_chain(spent, shot, shot.day_auto_ended());
    continues_chain(g, spent, shot.day_auto_ended());
    continues_chain(g, spent, spent.vote_window_opened(by, target));
}

/// A granted nomination keeps the game going.
pub proof fn nominated_continues(g: GameView, by: SeatId, target: SeatId)
    ensures
        g.nominated(by, target) matches Ok(h) ==> continues(g, h),
{
    reveal(GameView::nominated);
    if g.nomination_legal(by, target) is Ok {
        seat_index_is_first(g.seats, target);
        let open = match g.phase {
            Phase::Day { day, stage: DayStage::Discussion } => g.with_nominations(day),
            _ => g,
        };
        assert(continues(g, open));
        let nominee = seat_of(g.seats, target)->0;
        if nominee.true_character == Some(Character::Virgin) && !nominee.virgin_ability_used {
            virgin_nominated_continues(open, by, target);
            continues_chain(g, open, open.virgin_nominated(by, target));
        } else {
            let recorded = open.nomination_recorded(by, target);
            assert(continues(open, recorded));
            vote_window_continues(recorded, by, target);
            continues_chain(open, recorded, recorded.vote_window_opened(by, target));
            continues_chain(g, open, recorded.vote_window_opened(by, target));
        }
    }
}

/// Granted speech, the opening of nominations and a granted pass keep the game going.
pub proof fn said_opened_passed_continue(
    g: GameView,
    seat: SeatId,
    text: Seq<char>,
    to: Option<SeatId>,
)
    ensures
        g.said(seat, text, to) matches Ok(h) ==> continues(g, h),
        g.nominations_opened() matches Ok(h) ==> continues(g, h),
        g.passed(seat) matches Ok(h) ==> continues(g, h),
{
    reveal(GameView::passed);
    if g.passed(seat) is Ok {
        let open = g.current_nomination->0;
        let noted = GameView {
            current_nomination: Some(
                OpenNominationView { passes: open.passes.push(seat), ..open },
            ),
            ..g
        };
        assert(continues(g, noted));
        closed_when_complete_continues(noted);
        continues_chain(g, noted, noted.closed_when_complete());
    }
}

/// Closing a vote and ending the nominations keep the game going.
pub proof fn closing_continues(g: GameView)
    ensures
        g.vote_closed() matches Ok(h) ==> continues(g, h),
        g.nominations_ended() matches Ok(h) ==> continues(g, h),
{
    if g.vote_closed() is Ok {
        assert(continues(g, g.tallied()));
        day_auto_ended_continues(g.tallied());
        continues_chain(g, g.tallied(), g.tallied().day_auto_ended());
    }
    if let Phase::Day { day, stage: DayStage::Nominations } = g.phase {
        if g.winner is None {
            day_end_continues(g, day);
        }
    }
}

/// A granted shot of the Slayer keeps the game going.
pub proof fn slew_continues(g: GameView, slayer: SeatId, target: SeatId)
    requires
        g.slew(slayer, target) is Ok,
    ensures
        continues(g, g.slew(slayer, target)->Ok_0),
{
    reveal(GameView::slew);
    seat_index_is_first(g.seats, slayer);
    let s = seat_of(g.seats, slayer)->0;
    let spent = GameView {
        seats: with_seat(g.seats, slayer, Seat { slayer_used: true, ..s }),
        ..g
    };
    assert(continues(g, spent));
    slain_continues(spent, target, true);
    slain_continues(spent, target, false);
    continues_chain(g, spent, spent.slain(target, true));
    continues_chain(g, spent, spent.slain(target, false));
}

/// A shot that lands keeps the game going.
pub proof fn slain_continues(g: GameView, target: SeatId, was_imp: bool)
    ensures
        continues(g, g.slain(target, was_imp)),
{
    reveal(GameView::slain);
    seat_index_is_first(g.seats, target);
    let alive_before = head_count(g.seats);
    if let Some(s) = seat_of(g.seats, target) {
        if s.alive {
            let told = GameView {
                seats: with_seat(
                    g.seats,
                    target,
                    Seat { alive: false, ghost_vote_available: true, ..s },
                ),
                ..g
            }.publish(PublicEventView::PlayerDied { seat: target }).announce(
                "Seat "@ + crate::text::dec(target.0 as nat) + " dies."@,
            );
            assert(continues(g, told));
            let followed = told.demon_succeeded(alive_before);
            demon_succeeded_continues(told, alive_before);
            win_checked_continues(followed);
            win_checked_continues(told);
            continues_chain(g, told, followed);
            continues_chain(g, followed, followed.win_checked());
            continues_chain(g, told, told.win_checked());
        }
    }
}

proof fn choice_continues(g: GameView, pending: PendingWakeView, payload: NightActionPayload)
    ensures
        continues(g, g.choice_applied(pending, payload)),
{
    let cured = g.unpoisoned();
    assert(continues(g, cured));
    if let NightActionPayload::PickOne { target } = payload {
        seat_index_is_first(cured.seats, target);
        assert(continues(cured, cured.poisoned(target)));
        continues_chain(g, cured, cured.poisoned(target));
        seat_index_is_first(g.seats, target);
        assert(continues(g, g.monk_shielded(target)));
        seat_index_is_first(g.seats, pending.seat);
        assert(continues(g, g.butler_serves(pending.seat, target)));
    }
}

proof fn night_acted_continues(g: GameView, seat: SeatId, payload: NightActionPayload)
    ensures
        g.night_acted(seat, payload) matches Ok(h) ==> continues(g, h),
{
    if g.night_acted(seat, payload) is Ok {
        let pending = g.pending_night->0;
        choice_continues(g, pending, payload);
        let chosen = g.choice_applied(pending, payload);
        let moved = GameView { pending_night: None, ..chosen }.advanced();
        assert(continues(chosen, moved));
        night_tick_continues(moved);
        continues_chain(g, chosen, moved);
        continues_chain(g, moved, moved.ticked());
    }
}

proof fn resumed_continues(g: GameView)
    ensures
        continues(g, g.resumed()),
{
    if g.phase.night_falls() {
        assert(continues(g, g.advanced()));
        night_tick_continues(g.advanced());
        continues_chain(g, g.advanced(), g.advanced().ticked());
    }
}

proof fn mayor_decided_continues(g: GameView, mayor: SeatId, choice: MayorRedirectChoice)
    ensures
        continues(g, g.mayor_decided(mayor, choice).0),
{
    demon_slew_continues(g, mayor);
    if let MayorRedirectChoice::KillOther { target } = choice {
        demon_slew_continues(g, target);
    }
}

proof fn starpass_decided_continues(g: GameView, dead_imp: SeatId, minion: SeatId)
    ensures
        continues(g, g.killed_tonight(dead_imp).starpassed_to(minion).resumed()),
{
    let dead = g.killed_tonight(dead_imp);
    let passed = dead.starpassed_to(minion);
    killed_tonight_continues(g, dead_imp);
    starpassed_continues(dead, minion);
    resumed_continues(passed);
    continues_chain(g, dead, passed);
    continues_chain(g, passed, passed.resumed());
}

/// An information step changes nothing but the Butler's master before its message goes out.
pub proof fn info_changes_only_the_butler(
    g: GameView,
    step: NightStep,
    payload: Option<NightActionPayload>,
)
    ensures
        g.night_info(step, payload) matches Ok(Some((h, _, _))) ==> match (step, payload) {
            (
                NightStep::Butler { seat },
                Some(NightActionPayload::PickOne { target }),
            ) => h == g.butler_serves(seat, target),
            _ => h == g,
        },
{
    reveal(GameView::night_info);
}

proof fn informed_continues(g: GameView, step: NightStep, payload: Option<NightActionPayload>)
    ensures
        g.informed(step, payload) matches Ok((h, _)) ==> continues(g, h),
{
    info_changes_only_the_butler(g, step, payload);
    if let Ok(Some((h, seat, text))) = g.night_info(step, payload) {
        if let NightStep::Butler { seat: butler } = step {
            seat_index_is_first(g.seats, butler);
        }
        assert(continues(g, h));
        let msg = PrivateMessageView::NightResult { text };
        assert(continues(h, h.whisper(seat, msg)));
        continues_chain(g, h, h.whisper(seat, msg));
    }
}

/// Whatever is done by night, by a player, by the host or by skipping, leads only into a game
/// that continues the old one.
pub proof fn night_requests_continue(
    g: GameView,
    seat: SeatId,
    payload: NightActionPayload,
    decision: HostDecision,
    host: Seq<char>,
)
    ensures
        g.night_acted(seat, payload) matches Ok(h) ==> continues(g, h),
        g.host_decided(decision) matches Ok(h) ==> continues(g, h),
        continues(g, g.host_skipped().0),
        continues(g, g.skipped(host).0),
{
    reveal(GameView::host_decided);
    reveal(GameView::host_skipped);
    night_acted_continues(g, seat, payload);
    let clear = g.undecided_cleared();
    assert(continues(g, clear));
    resumed_continues(clear);
    continues_chain(g, clear, clear.resumed());
    match g.pending_host {
        Some(PendingHostDecision::MayorRedirect { mayor, .. }) => {
            if let HostDecision::MayorRedirect { choice } = decision {
                let h = clear.mayor_decided(mayor, choice).0;
                mayor_decided_continues(clear, mayor, choice);
                resumed_continues(h);
                continues_chain(g, clear, h);
                continues_chain(g, h, h.resumed());
            }
        },
        Some(PendingHostDecision::StarpassPick { minions, dead_imp }) => {
            if let HostDecision::StarpassPick { minion } = decision {
                starpass_decided_continues(clear, dead_imp, minion);
                continues_chain(
                    g,
                    clear,
                    clear.killed_tonight(dead_imp).starpassed_to(minion).resumed(),
                );
            }
            let sorted = crate::game::seat::ascending(minions@);
            if sorted.len() > 0 {
                let minion = sorted[g.night_stream("starpass:c"@).choice(sorted.len()).0];
                starpass_decided_continues(clear, dead_imp, minion);
                continues_chain(
                    g,
                    clear,
                    clear.killed_tonight(dead_imp).starpassed_to(minion).resumed(),
                );
            }
        },
        Some(PendingHostDecision::NightInfo { seat: to, step, payload: stored, .. }) => {
            if let HostDecision::NightInfo { text } = decision {
                let h = clear.whisper(to, PrivateMessageView::NightResult { text: text@ });
                assert(continues(clear, h));
                resumed_continues(h);
                continues_chain(g, clear, h);
                continues_chain(g, h, h.resumed());
            }
            informed_continues(clear, step, crate::game::host::night_choice(stored));
            if let Ok((h, _)) = clear.informed(step, crate::game::host::night_choice(stored)) {
                resumed_continues(h);
                continues_chain(g, clear, h);
                continues_chain(g, h, h.resumed());
            }
        },
        _ => {},
    }
    if g.pending_host is None {
        if let Some(pending) = g.pending_night {
            if let Ok(choice) = g.default_payload(pending) {
                night_acted_continues(g, pending.seat, choice);
            }
        }
    }
}

proof fn seats_dealt_continue(seats: Seq<Seat>, assignments: Seq<RoleAssignment>)
    ensures
        seats_continue(seats, seats_dealt(seats, assignments).0),
    decreases assignments.len(),
{
    if assignments.len() > 0 {
        seats_dealt_continue(seats, assignments.drop_last());
        let front = seats_dealt(seats, assignments.drop_last()).0;
        let a = assignments.last();
        seat_index_is_first(front, a.seat);
        let after = seats_dealt(seats, assignments).0;
        assert forall|i: int| 0 <= i < seats.len() implies seat_continues(
            seats[i],
            #[trigger] after[i],
        ) by {
            assert(seat_continues(seats[i], front[i]));
        }
    }
}

proof fn identities_told_grow(boxes: PrivateInboxesView, upto: Seq<Seat>)
    ensures
        boxes.grows_to(identities_told(boxes, upto)),
    decreases upto.len(),
{
    if upto.len() > 0 {
        identities_told_grow(boxes, upto.drop_last());
    }
}

/// Starting a game, with drawn or given characters, keeps it going; a start that is refused by
/// the host check, the phase, the deal or a face leaves the game as it was.
pub proof fn start_continues(
    g: GameView,
    host: Seq<char>,
    opts: StartOpts,
    list: Seq<RoleAssignment>,
)
    ensures
        continues(g, g.started(host, opts).0),
        continues(g, g.assigned(list).0),
        !g.is_host(host) || !(g.phase is Lobby) || g.deal_for(opts) is Err ==> g.started(
            host,
            opts,
        ).0 == g,
        crate::game::start::faces_ok(list) is Err ==> g.assigned(list).0 == g,
{
    dealt_and_begun_continues(g, list);
    if g.is_host(host) && g.phase is Lobby {
        if let Ok((assignments, red_herring, demon_bluffs)) = g.deal_for(opts) {
            let ready = GameView {
                registration_mode: opts.registration_mode,
                st_choice_mode: opts.st_choice_mode,
                red_herring,
                demon_bluffs,
                ..g
            };
            assert(continues(g, ready));
            dealt_and_begun_continues(ready, assignments);
            continues_chain(g, ready, ready.dealt_and_begun(assignments).0);
        }
    }
}

proof fn dealt_and_begun_continues(g: GameView, list: Seq<RoleAssignment>)
    ensures
        continues(g, g.dealt_and_begun(list).0),
{
    let (seats, all) = seats_dealt(g.seats, list);
    let h = GameView { seats, ..g };
    seats_dealt_continue(g.seats, list);
    assert(continues(g, h));
    if all {
        first_night_continues(h);
        continues_chain(g, h, h.first_night_begun());
    }
}

/// The first night keeps the game going.
pub proof fn first_night_continues(h: GameView)
    ensures
        continues(h, h.first_night_begun()),
{
    identities_told_grow(h.private_inboxes, h.seats);
    let clean = GameView {
        private_inboxes: identities_told(h.private_inboxes, h.seats),
        deaths_tonight: seq![],
        executed_today: None,
        pending_night: None,
        pending_host: None,
        ..h
    }.with_day_votes_reset();
    let begun = GameView {
        night_queue: clean.first_night_steps(),
        night_cursor: 0,
        phase: Phase::FirstNight { cursor: 0 },
        ..clean
    }.announce("Night falls. Eyes closed. The first night begins."@);
    assert(continues(h, begun));
    night_tick_continues(begun);
    continues_chain(h, begun, begun.ticked());
}

// ---------------------------------------------------------------------------
// What is refused
// ---------------------------------------------------------------------------

/// Once the game is decided, or while a Storyteller decision is open, nobody nominates, votes,
/// passes, slays, or opens, closes or ends anything.
pub proof fn nothing_moves_in_a_blocked_game(
    g: GameView,
    seat: SeatId,
    other: SeatId,
    support: bool,
)
    requires
        g.over() || g.pending_host is Some,
    ensures
        g.in_play() is Err,
        g.over() ==> g.in_play() == Err::<(), GameError>(GameError::GameEnded),
        g.nominated(seat, other) == Err::<GameView, GameError>(g.in_play()->Err_0),
        g.voted(seat, other, support) == Err::<GameView, GameError>(g.in_play()->Err_0),
        g.passed(seat) == Err::<GameView, GameError>(g.in_play()->Err_0),
        g.slew(seat, other) == Err::<GameView, GameError>(g.in_play()->Err_0),
        g.nominations_opened() == Err::<GameView, GameError>(g.in_play()->Err_0),
        g.vote_closed() == Err::<GameView, GameError>(g.in_play()->Err_0),
        g.nominations_ended() == Err::<GameView, GameError>(g.in_play()->Err_0),
{
    reveal(GameView::nominated);
    reveal(GameView::voted);
    reveal(GameView::passed);
    reveal(GameView::slew);
}

/// A seat responds once to an open nomination: after a vote that left the window open, neither a
/// second vote nor a pass of that seat is granted, and likewise after a pass.
pub proof fn one_response_per_seat(
    g: GameView,
    seat: SeatId,
    nominee: SeatId,
    support: bool,
    again: bool,
)
    ensures
        g.voted(seat, nominee, support) matches Ok(h) ==> h.current_nomination is Some ==> h.voted(
            seat,
            nominee,
            again,
        ) is Err && h.passed(seat) is Err,
        g.passed(seat) matches Ok(h) ==> h.current_nomination is Some ==> h.voted(
            seat,
            nominee,
            again,
        ) is Err && h.passed(seat) is Err,
{
    reveal(GameView::closed_when_complete);
    reveal(GameView::voted);
    reveal(GameView::passed);
    if let Ok(h) = g.voted(seat, nominee, support) {
        if h.current_nomination is Some {
            let open = g.current_nomination->0;
            let votes = open.votes.push((seat, support));
            assert(votes[votes.len() - 1].0 == seat);
            assert(voted_by(votes, seat));
            still_open_means_not_closed(g, seat, nominee, support);
        }
    }
    if let Ok(h) = g.passed(seat) {
        if h.current_nomination is Some {
            let open = g.current_nomination->0;
            let passes = open.passes.push(seat);
            assert(passes[passes.len() - 1] == seat);
            let noted = GameView {
                current_nomination: Some(OpenNominationView { passes, ..open }),
                ..g
            };
            closing_leaves_no_window(noted);
        }
    }
}

/// A vote after which the window is still open left it open with that ballot added.
pub proof fn still_open_means_not_closed(g: GameView, seat: SeatId, nominee: SeatId, support: bool)
    requires
        g.voted(seat, nominee, support) matches Ok(h) && h.current_nomination is Some,
    ensures
        g.voted(seat, nominee, support)->Ok_0.current_nomination == Some(
            OpenNominationView {
                votes: g.current_nomination->0.votes.push((seat, support)),
                ..g.current_nomination->0
            },
        ),
{
    reveal(GameView::voted);
    reveal(GameView::closed_when_complete);
    let open = g.current_nomination->0;
    let voter = seat_of(g.seats, seat)->0;
    let spent = if !voter.alive && support {
        GameView {
            seats: with_seat(g.seats, seat, Seat { ghost_vote_available: false, ..voter }),
            ..g
        }
    } else {
        g
    };
    let cast = GameView {
        current_nomination: Some(
            OpenNominationView { votes: open.votes.push((seat, support)), ..open },
        ),
        ..spent.publish(PublicEventView::VoteCast { seat, nominee, support })
    };
    closing_leaves_no_window(cast);
}

proof fn ticking_opens_no_window(g: GameView)
    ensures
        g.current_nomination is None ==> g.ticked().current_nomination is None,
    decreases g.night_queue.len() - g.night_cursor,
{
    reveal(GameView::dawned);
    if g.pending_night is Some || !g.phase.night_falls() || g.night_cursor >= g.night_queue.len()
        || g.night_cursor == usize::MAX {
    } else {
        let step = g.night_queue[g.night_cursor as int];
        if wake_of(step) is None && step != NightStep::Dawn {
            ticking_opens_no_window(
                GameView { private_inboxes: g.step_mail(step), ..g }.advanced(),
            );
        }
    }
}

proof fn execution_opens_no_window(g: GameView, seat: SeatId)
    ensures
        g.executed(seat).current_nomination == g.current_nomination,
{
    reveal(GameView::executed);
    reveal(GameView::demon_succeeded);
    reveal(GameView::win_checked);
}

proof fn closing_leaves_no_window(g: GameView)
    ensures
        g.vote_complete() ==> g.closed_when_complete().current_nomination is None,
{
    reveal(GameView::closed_when_complete);
    reveal(GameView::day_auto_ended);
    reveal(GameView::day_closed);
    reveal(GameView::night_entered);
    reveal(GameView::win_checked);
    let t = g.tallied();
    if let Phase::Day { day, stage: DayStage::Nominations } = t.phase {
        let counted = t.tallied();
        let judged = if counted.executed_today is Some {
            counted
        } else {
            match block_leader(counted.closed_nominations, head_count(counted.seats)) {
                Some(leader) => {
                    execution_opens_no_window(counted, leader);
                    counted.executed(leader)
                },
                None => {
                    let spared = counted.publish(PublicEventView::NoExecution).announce(
                        "No execution today."@,
                    );
                    if spared.mayor_wins() {
                        spared.ended(Winner::Good, EndReason::MayorThreeNoExec)
                    } else {
                        spared.win_checked()
                    }
                },
            }
        };
        assert(judged.current_nomination is None);
        let night = crate::game::day::next_day(day);
        let fallen = GameView { deaths_tonight: seq![], pending_night: None, ..judged };
        let begun = GameView {
            phase: Phase::Night { night, cursor: 0 },
            night_queue: fallen.other_night_steps(),
            night_cursor: 0,
            ..fallen
        }.announce("Night falls. Eyes closed."@);
        ticking_opens_no_window(begun);
    }
}

/// A dead player's yes vote spends the ghost vote: where the window stays open the seat has none
/// left, and without one no vote and no pass of that seat is ever granted.
pub proof fn ghost_vote_is_spent_once(g: GameView, seat: SeatId, nominee: SeatId, support: bool)
    ensures
        g.voted(seat, nominee, true) matches Ok(h) ==> h.current_nomination is Some ==> !seat_of(
            g.seats,
            seat,
        )->0.alive ==> (seat_of(h.seats, seat) matches Some(s) && !s.ghost_vote_available),
        (seat_of(g.seats, seat) matches Some(s) && !s.alive && !s.ghost_vote_available)
            ==> g.voted(seat, nominee, support) is Err && g.passed(seat) is Err,
{
    reveal(GameView::voted);
    reveal(GameView::passed);
    reveal(GameView::closed_when_complete);
    if let Ok(h) = g.voted(seat, nominee, true) {
        if h.current_nomination is Some && !seat_of(g.seats, seat)->0.alive {
            let open = g.current_nomination->0;
            let voter = seat_of(g.seats, seat)->0;
            let spent = GameView {
                seats: with_seat(g.seats, seat, Seat { ghost_vote_available: false, ..voter }),
                ..g
            };
            let cast = GameView {
                current_nomination: Some(
                    OpenNominationView { votes: open.votes.push((seat, true)), ..open },
                ),
                ..spent.publish(PublicEventView::VoteCast { seat, nominee, support: true })
            };
            closing_leaves_no_window(cast);
            assert(h == cast);
            seat_index_is_first(g.seats, seat);
            seat_index_by_ids(g.seats, h.seats, seat);
        }
    }
}

/// A refused nomination is refused before anything is opened, recorded or announced; a granted
/// one comes only from a living seat that has not nominated today, against another living seat
/// that was not nominated today.
pub proof fn nominations_are_legal(g: GameView, by: SeatId, target: SeatId)
    ensures
        g.nominated(by, target) is Ok <==> g.nomination_legal(by, target) is Ok,
        g.nominated(by, target) is Ok ==> {
            &&& by != target
            &&& seat_of(g.seats, by) matches Some(s) && s.alive
            &&& seat_of(g.seats, target) matches Some(s) && s.alive
            &&& !g.day_nominators.contains(by)
            &&& !g.day_nominees.contains(target)
            &&& g.executed_today is None
        },
{
    reveal(GameView::nominated);
}

/// The execution leader has at least half of the living behind the vote and strictly more yes
/// votes than any other nominee that has; with a tie at the top nobody leads.
pub proof fn leader_is_strict(noms: Seq<ClosedNomination>, living: u32, i: int, j: int)
    ensures
        block_leader(noms, living) matches Some(seat) ==> exists|k: int|
            #[trigger] strictly_leads(noms, living, k) && noms[k].target == seat,
        0 <= i < noms.len() && 0 <= j < noms.len() && i != j && carries(noms[i].yes_votes, living)
            && noms[i].yes_votes == noms[j].yes_votes && (forall|k: int|
            0 <= k < noms.len() ==> (#[trigger] noms[k]).yes_votes <= noms[i].yes_votes)
            ==> block_leader(noms, living) is None,
{
    if block_leader(noms, living) is Some {
        let k = choose|k: int| strictly_leads(noms, living, k);
        assert(strictly_leads(noms, living, k) && noms[k].target == block_leader(noms, living)->0);
    }
    if 0 <= i < noms.len() && 0 <= j < noms.len() && i != j && carries(noms[i].yes_votes, living)
        && noms[i].yes_votes == noms[j].yes_votes && (forall|k: int|
        0 <= k < noms.len() ==> (#[trigger] noms[k]).yes_votes <= noms[i].yes_votes) {
        assert forall|m: int| !strictly_leads(noms, living, m) by {
            if strictly_leads(noms, living, m) {
                assert(m == i || noms[i].yes_votes < noms[m].yes_votes);
                assert(m == j || noms[j].yes_votes < noms[m].yes_votes);
            }
        }
    }
}

// ---------------------------------------------------------------------------
// What stays secret
// ---------------------------------------------------------------------------

/// Two seats that look alike from the outside.
pub open spec fn publicly_alike(a: Seat, b: Seat) -> bool {
    a.id == b.id && a.display_name == b.display_name && a.alive == b.alive
        && a.ghost_vote_available == b.ghost_vote_available
}

/// The public roster tells nothing about characters, poison, drunkenness or any other marker:
/// tables that look alike from the outside have the same roster.
pub proof fn roster_keeps_roles_secret(a: GameView, b: GameView)
    requires
        a.phase == b.phase,
        a.deaths_tonight == b.deaths_tonight,
        a.seats.len() == b.seats.len(),
        forall|i: int| 0 <= i < a.seats.len() ==> publicly_alike(a.seats[i], #[trigger] b.seats[i]),
    ensures
        a.roster() == b.roster(),
{
    assert forall|i: int| 0 <= i < a.seats.len() implies a.roster()[i] == b.roster()[i] by {
        assert(publicly_alike(a.seats[i], b.seats[i]));
    }
    assert(a.roster() =~= b.roster());
}

/// A kill at night stays hidden while the night lasts.
pub proof fn night_kills_stay_hidden(g: GameView, seat: SeatId)
    requires
        g.phase.night_falls(),
        seat_of(g.seats, seat) matches Some(s) && s.alive,
    ensures
        seat_of(g.killed_tonight(seat).seats, seat) matches Some(s) && !s.alive
            && g.killed_tonight(seat).publicly_alive(s),
{
    seat_index_is_first(g.seats, seat);
    let h = g.killed_tonight(seat);
    seat_index_by_ids(g.seats, h.seats, seat);
    if !g.deaths_tonight.contains(seat) {
        assert(h.deaths_tonight[h.deaths_tonight.len() - 1] == seat);
    }
}

/// Whether the Slayer is sober shows in no answer: of two seats that face alike, live alike and
/// have shot alike, both are refused with the same error or both are granted.
pub proof fn slay_answers_hide_sobriety(a: GameView, b: GameView, slayer: SeatId, target: SeatId)
    requires
        a.in_play() == b.in_play(),
        a.phase is Day <==> b.phase is Day,
        a.seats.len() == b.seats.len(),
        forall|i: int|
            0 <= i < a.seats.len() ==> a.seats[i].id == (#[trigger] b.seats[i]).id
                && a.seats[i].alive == b.seats[i].alive && a.seats[i].face() == b.seats[i].face()
                && a.seats[i].slayer_used == b.seats[i].slayer_used,
    ensures
        a.slew(slayer, target) is Ok <==> b.slew(slayer, target) is Ok,
        a.slew(slayer, target) is Err ==> b.slew(slayer, target) is Err && a.slew(
            slayer,
            target,
        )->Err_0 == b.slew(slayer, target)->Err_0,
{
    reveal(GameView::slew);
    seat_index_by_ids(a.seats, b.seats, slayer);
    seat_index_by_ids(a.seats, b.seats, target);
    seat_index_is_first(a.seats, slayer);
    seat_index_is_first(a.seats, target);
}

/// Nobody is told to be the Drunk: once every seat was dealt a checked assignment, no seat that
/// did not face as Drunk before does so now.
pub proof fn nobody_faces_as_drunk(seats: Seq<Seat>, assignments: Seq<RoleAssignment>)
    requires
        forall|i: int| 0 <= i < assignments.len() ==> face_ok(#[trigger] assignments[i]) is Ok,
        forall|i: int| 0 <= i < seats.len() ==> (#[trigger] seats[i]).face() != Some(Character::Drunk),
    ensures
        forall|i: int|
            0 <= i < seats.len() ==> (#[trigger] seats_dealt(seats, assignments).0[i]).face()
                != Some(Character::Drunk),
        seats_dealt(seats, assignments).0.len() == seats.len(),
    decreases assignments.len(),
{
    if assignments.len() > 0 {
        let front = assignments.drop_last();
        assert forall|i: int| 0 <= i < front.len() implies face_ok(#[trigger] front[i]) is Ok by {
            assert(front[i] == assignments[i]);
        }
        nobody_faces_as_drunk(seats, front);
        let a = assignments.last();
        assert(face_ok(assignments[assignments.len() - 1]) is Ok);
        seat_index_is_first(seats_dealt(seats, front).0, a.seat);
    }
}

// ---------------------------------------------------------------------------
// What shields and what counts
// ---------------------------------------------------------------------------

/// The Demon's attack fails on the dead, on the Monk's charge and on a working Soldier, and a
/// poisoned or drunk Imp kills nobody: the game stays as it was.
pub proof fn shields_hold(g: GameView, demon: SeatId, target: SeatId)
    requires
        demon != target,
    ensures
        (seat_of(g.seats, demon) matches Some(s) && s.disabled()) ==> g.demon_kill(demon, target)
            == (g, KillResult::Survived),
        (seat_of(g.seats, demon) matches Some(s) && !s.disabled()) && (seat_of(
            g.seats,
            target,
        ) matches Some(s) && !s.alive) ==> g.demon_kill(demon, target) == (g, KillResult::Sank),
        (seat_of(g.seats, demon) matches Some(s) && !s.disabled()) && (seat_of(
            g.seats,
            target,
        ) matches Some(s) && s.alive) && (monk_protected(g.seats, target) || soldier_immune(
            g.seats,
            target,
        )) ==> g.demon_kill(demon, target) == (g, KillResult::Survived),
{
    reveal(GameView::demon_kill);
    reveal(GameView::attacked);
}

/// No seat was directed at, or directed speech, more often than the cap allows.
pub open spec fn directed_within_cap(g: GameView) -> bool {
    &&& forall|i: int| 0 <= i < g.directed_say_sent.len() ==> (#[trigger] g.directed_say_sent[i])
        <= DIRECTED_SAY_CAP
    &&& forall|i: int|
        0 <= i < g.directed_say_received.len() ==> (#[trigger] g.directed_say_received[i])
            <= DIRECTED_SAY_CAP
}

/// Directed speech never exceeds the cap: saying something and starting over keep it.
pub proof fn directed_say_is_capped(g: GameView, seat: SeatId, text: Seq<char>, to: Option<SeatId>)
    requires
        directed_within_cap(g),
    ensures
        g.said(seat, text, to) matches Ok(h) ==> directed_within_cap(h),
        directed_within_cap(g.with_directed_say_reset()),
{
}

/// Skipping a wake works whenever some seat fits it: the default choice is one that the wake
/// accepts.
pub proof fn skipped_choice_fits(g: GameView, pending: PendingWakeView)
    requires
        g.seats.len() > 0,
        pending.schema matches crate::game::night::ChoiceSchema::PickOne {
            living_only,
            exclude_self,
            ..
        } ==> exists|i: int|
            0 <= i < g.seats.len() && (living_only ==> (#[trigger] g.seats[i]).alive) && (
            exclude_self ==> g.seats[i].id != pending.seat),
        forall|i: int, j: int| 0 <= i < j < g.seats.len() ==> g.seats[i].id != g.seats[j].id,
    ensures
        g.default_payload(pending) matches Ok(payload) && g.payload_fits(pending, payload) is Ok,
{
    match pending.schema {
        crate::game::night::ChoiceSchema::PickOne { any_seat, living_only, exclude_self } => {
            let wanted = |s: Seat|
                !(living_only && !s.alive) && !(exclude_self && s.id == pending.seat);
            first_where_is_first(g.seats, wanted);
            let k = choose|i: int|
                0 <= i < g.seats.len() && (living_only ==> (#[trigger] g.seats[i]).alive) && (
                exclude_self ==> g.seats[i].id != pending.seat);
            assert(wanted(g.seats[k]));
            let i = first_where(g.seats, wanted)->0;
            assert(wanted(g.seats[i]));
            seat_index_is_first(g.seats, g.seats[i].id);
            let m = seat_index(g.seats, g.seats[i].id)->0;
            assert(m == i);
        },
        crate::game::night::ChoiceSchema::PickTwo { .. } => {
            seat_index_is_first(g.seats, g.seats[0].id);
            if g.seats.len() > 1 {
                seat_index_is_first(g.seats, g.seats[1].id);
            }
        },
        crate::game::night::ChoiceSchema::Ack => {},
    }
}

// ---------------------------------------------------------------------------
// Who wins
// ---------------------------------------------------------------------------

/// The win check ends an undecided game exactly if nobody alive is the Imp, and then Good has won;
/// a decided game stays as it is.
pub proof fn good_wins_without_an_imp(g: GameView)
    ensures
        g.imp_lives() <==> exists|i: int|
            0 <= i < g.seats.len() && living_imp(#[trigger] g.seats[i]),
        !g.over() && !g.imp_lives() ==> g.win_checked().winner == Some(Winner::Good),
        g.over() || g.imp_lives() ==> g.win_checked() == g,
        g.win_checked().over() || g.win_checked().imp_lives(),
{
    reveal(GameView::win_checked);
    first_where_is_first(g.seats, |s: Seat| living_imp(s));
}

/// A working Scarlet Woman who is alive when the Demon dies takes over if five or more were alive,
/// and the game goes on; with fewer nothing happens.
pub proof fn scarlet_woman_takes_over(g: GameView, i: int, alive_before: u32)
    requires
        0 <= i < g.seats.len(),
        ready_scarlet_woman(g.seats[i]),
    ensures
        alive_before >= SCARLET_WOMAN_LIVING ==> g.demon_succeeded(alive_before).imp_lives()
            && g.demon_succeeded(alive_before).win_checked() == g.demon_succeeded(alive_before),
        alive_before < SCARLET_WOMAN_LIVING ==> g.demon_succeeded(alive_before) == g,
{
    reveal(GameView::demon_succeeded);
    let wanted = |s: Seat| ready_scarlet_woman(s);
    first_where_is_first(g.seats, wanted);
    let after = g.demon_succeeded(alive_before);
    good_wins_without_an_imp(after);
    if alive_before >= SCARLET_WOMAN_LIVING {
        let k = first_where(g.seats, wanted)->0;
        assert(wanted(g.seats[i]));
        assert(living_imp(after.seats[k]));
    }
}

/// A starpass to somebody alive goes on: there is an Imp again, and nobody has won by it.
pub proof fn starpass_goes_on(g: GameView, minion: SeatId)
    requires
        seat_of(g.seats, minion) matches Some(s) && s.alive,
    ensures
        g.starpassed_to(minion).imp_lives(),
        g.starpassed_to(minion).winner == g.winner,
        g.starpassed_to(minion).phase == g.phase,
{
    reveal(GameView::starpassed_to);
    reveal(GameView::win_checked);
    seat_index_is_first(g.seats, minion);
    let k = seat_index(g.seats, minion)->0;
    let s = g.seats[k];
    let turned = GameView { seats: with_seat(g.seats, minion, turned_imp(s)), ..g };
    let after = (if s.true_character == Some(Character::Poisoner) {
        turned.unpoisoned()
    } else {
        turned
    }).whisper(minion, you_are_the_imp());
    good_wins_without_an_imp(after);
    assert(living_imp(after.seats[k]));
}

/// Whoever dies, by execution or by the Demon, afterwards the game is decided or an Imp lives.
pub proof fn undecided_games_have_an_imp(g: GameView, seat: SeatId)
    ensures
        g.executed(seat).over() || g.executed(seat).imp_lives(),
        g.demon_slew(seat).over() || g.demon_slew(seat).imp_lives(),
        g.starpassed_to(seat).over() || g.starpassed_to(seat).imp_lives(),
{
    reveal(GameView::executed);
    reveal(GameView::demon_slew);
    reveal(GameView::starpassed_to);
    assert forall|h: GameView|
        (#[trigger] h.win_checked()).over() || h.win_checked().imp_lives() by {
        good_wins_without_an_imp(h);
    }
}

/// The execution of a working Saint loses the game for Good.
pub proof fn an_executed_saint_loses(g: GameView, seat: SeatId)
    requires
        seat_of(g.seats, seat) matches Some(s) && s.true_character == Some(Character::Saint)
            && !s.disabled(),
    ensures
        g.executed(seat).winner == Some(Winner::Evil),
        g.executed(seat).phase == (Phase::Ended {
            winner: Winner::Evil,
            reason: EndReason::SaintExecuted,
        }),
{
    reveal(GameView::executed);
}

/// A working Mayor who is one of the last three wins for Good if the day ends without a leader to
/// execute.
pub proof fn the_mayor_wins_with_three(g: GameView, day: u32, i: int)
    requires
        0 <= i < g.seats.len(),
        g.seats[i].alive && g.seats[i].true_character == Some(Character::Mayor)
            && !g.seats[i].disabled(),
        head_count(g.seats) == MAYOR_LIVING,
        g.executed_today is None,
        block_leader(g.tallied().closed_nominations, head_count(g.seats)) is None,
    ensures
        g.day_closed(day).winner == Some(Winner::Good),
        g.day_closed(day).phase == (Phase::Ended {
            winner: Winner::Good,
            reason: EndReason::MayorThreeNoExec,
        }),
{
    reveal(GameView::day_closed);
    let wanted = |s: Seat| s.alive && s.true_character == Some(Character::Mayor) && !s.disabled();
    first_where_is_first(g.seats, wanted);
    assert(wanted(g.seats[i]));
    assert(first_where(g.seats, wanted) is Some);
    assert(g.mayor_wins());
    let spared = g.tallied().publish(PublicEventView::NoExecution).announce("No execution today."@);
    assert(spared.mayor_wins());
}

} // verus!
