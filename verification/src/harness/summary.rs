//! The public side of a game in words, for prompts and for the monitor.

use crate::comms::{EventId, PublicEvent, PublicEventView, PublicLogView};
use crate::game::ids::SeatId;
use crate::game::phase::{phase_notation, phase_string};
use crate::game::seat::Seat;
use crate::game::state::{Game, GameView};
use crate::text::{dec, join, joined, numbered, push_dec, split_words, texts, words};
use crate::tools::rules_docs::{team_label, team_word};
use vstd::prelude::*;
use vstd::string::*;

verus! {

/// `P` and the seat number.
pub open spec fn tag(seat: SeatId) -> Seq<char> {
    "P"@ + dec(seat.0 as nat)
}

/// `P` and the seat number.
pub fn seat_tag(seat: SeatId) -> (s: String)
    ensures
        s@ == tag(seat),
{
    numbered("P", seat.0 as u64)
}

/// Tags of seats.
pub open spec fn tags(seats: Seq<SeatId>) -> Seq<Seq<char>> {
    seats.map_values(|s: SeatId| tag(s))
}

#[verifier::loop_isolation(false)]
pub fn seat_tags(seats: &Vec<SeatId>) -> (v: Vec<String>)
    ensures
        texts(v@) == tags(seats@),
{
    let mut v: Vec<String> = Vec::new();
    let mut i: usize = 0;
    while i < seats.len()
        invariant
            i <= seats@.len(),
            v@.len() == i,
            forall|k: int| 0 <= k < i ==> (#[trigger] v@[k])@ == tag(seats@[k]),
        decreases seats@.len() - i,
    {
        v.push(seat_tag(seats[i]));
        i += 1;
    }
    assert(texts(v@) =~= tags(seats@));
    v
}

/// A text on one line: its words with single spaces.
pub open spec fn one_line(text: Seq<char>) -> Seq<char> {
    joined(words(text), " "@)
}

pub fn to_one_line(text: &str) -> (s: String)
    ensures
        s@ == one_line(text@),
{
    join(&split_words(text), " ")
}

/// One line for a public event.
///
/// Each event must be a single line: the snapshot lists one event per line, so a message with
/// embedded newlines would blur where one speaker ends and the next begins.
pub open spec fn event_line(e: PublicEventView) -> Seq<char> {
    match e {
        PublicEventView::Chat { seat, text, .. } => tag(seat) + ": "@ + one_line(text),
        PublicEventView::StorytellerAnnounce { text } => "Storyteller: "@ + one_line(text),
        PublicEventView::Nominated { by, target } => tag(by) + " nominated P"@ + dec(
            target.0 as nat,
        ),
        PublicEventView::VoteCast { seat, nominee, support } => tag(seat) + " voted "@ + (
        if support { "YES"@ } else { "no"@ }) + " on P"@ + dec(nominee.0 as nat),
        PublicEventView::Executed { seat } => tag(seat) + " was executed"@,
        PublicEventView::NoExecution => "No one was executed today"@,
        PublicEventView::DiedInNight { seats } => if seats.len() == 0 {
            "No one died in the night"@
        } else {
            "Died in the night: "@ + joined(tags(seats), ", "@)
        },
        PublicEventView::PlayerDied { seat } => tag(seat) + " died"@,
        PublicEventView::SlayerMiss { slayer, target } => tag(slayer) + " tried to slay P"@ + dec(
            target.0 as nat,
        ) + " — nothing happened"@,
        PublicEventView::PhaseChanged { summary } => summary,
        PublicEventView::GameEnded { winner } => "Game over — "@ + team_word(winner) + " wins"@,
    }
}

/// Readable one-line rendering of a public event.
pub fn fmt_public_event(e: &PublicEvent) -> (s: String)
    ensures
        s@ == event_line(e@),
{
    match e {
        PublicEvent::Chat { seat, text, .. } => {
            let mut s = seat_tag(*seat);
            s.append(": ");
            s.append(to_one_line(text.as_str()).as_str());
            s
        },
        PublicEvent::StorytellerAnnounce { text } => {
            let mut s = "Storyteller: ".to_owned();
            s.append(to_one_line(text.as_str()).as_str());
            s
        },
        PublicEvent::Nominated { by, target } => {
            let mut s = seat_tag(*by);
            s.append(" nominated P");
            push_dec(&mut s, target.0 as u64);
            s
        },
        PublicEvent::VoteCast { seat, nominee, support } => {
            let mut s = seat_tag(*seat);
            s.append(" voted ");
            s.append(if *support { "YES" } else { "no" });
            s.append(" on P");
            push_dec(&mut s, nominee.0 as u64);
            s
        },
        PublicEvent::Executed { seat } => {
            let mut s = seat_tag(*seat);
            s.append(" was executed");
            s
        },
        PublicEvent::NoExecution => "No one was executed today".to_owned(),
        PublicEvent::DiedInNight { seats } => {
            if seats.len() == 0 {
                "No one died in the night".to_owned()
            } else {
                let mut s = "Died in the night: ".to_owned();
                s.append(join(&seat_tags(seats), ", ").as_str());
                s
            }
        },
        PublicEvent::PlayerDied { seat } => {
            let mut s = seat_tag(*seat);
            s.append(" died");
            s
        },
        PublicEvent::SlayerMiss { slayer, target } => {
            let mut s = seat_tag(*slayer);
            s.append(" tried to slay P");
            push_dec(&mut s, target.0 as u64);
            s.append(" — nothing happened");
            s
        },
        PublicEvent::PhaseChanged { summary } => summary.clone(),
        PublicEvent::GameEnded { winner } => {
            let mut s = "Game over — ".to_owned();
            s.append(team_label(*winner));
            s.append(" wins");
            s
        },
    }
}

/// How many events a snapshot lists.
pub const RECENT_EVENTS: usize = 16;

/// Lines for the latest events, oldest first.
pub open spec fn recent_lines(log: PublicLogView) -> Seq<Seq<char>> {
    let all = log.since(0);
    let shown = if all.len() <= RECENT_EVENTS { all } else { all.skip(all.len() - RECENT_EVENTS) };
    shown.map_values(|e: (EventId, PublicEventView)| event_line(e.1))
}

#[verifier::loop_isolation(false)]
fn list_recent(game: &Game) -> (v: Vec<String>)
    ensures
        texts(v@) == recent_lines(game@.public_log),
{
    let all = game.public_log.since(0);
    let ghost view = crate::comms::public_refs(all@);
    let start: usize = if all.len() <= RECENT_EVENTS { 0 } else { all.len() - RECENT_EVENTS };
    let mut v: Vec<String> = Vec::new();
    let mut i: usize = start;
    while i < all.len()
        invariant
            start <= i <= all@.len(),
            v@.len() == i - start,
            forall|k: int| 0 <= k < v@.len() ==> (#[trigger] v@[k])@ == event_line(view[start
                + k].1),
        decreases all@.len() - i,
    {
        assert(view[i as int] == (all@[i as int].0, all@[i as int].1@));
        v.push(fmt_public_event(all[i].1));
        i += 1;
    }
    assert(texts(v@) =~= recent_lines(game@.public_log));
    v
}

impl GameView {
    /// Tags of the seats that are, or are not, publicly alive.
    pub open spec fn roster_tags(self, seats: Seq<Seat>, alive: bool) -> Seq<Seq<char>>
        decreases seats.len(),
    {
        if seats.len() == 0 {
            seq![]
        } else {
            let front = self.roster_tags(seats.drop_last(), alive);
            if self.publicly_alive(seats.last()) == alive {
                front.push(tag(seats.last().id))
            } else {
                front
            }
        }
    }

    /// The public snapshot.
    pub open spec fn public_snapshot(self) -> Seq<char> {
        let dead = self.roster_tags(self.seats, false);
        let recent = recent_lines(self.public_log);
        "phase: "@ + phase_notation(self.phase) + "\nliving: "@ + joined(
            self.roster_tags(self.seats, true),
            ", "@,
        ) + "\ndead: "@ + (if dead.len() == 0 { "none"@ } else { joined(dead, ", "@) })
            + "\nrecent public events:\n"@ + (if recent.len() == 0 {
            "(nothing public has happened yet)"@
        } else {
            joined(recent, "\n"@)
        })
    }

    /// What the host is told about open waits.
    pub open spec fn host_hint(self) -> Seq<char> {
        if self.pending_host is Some {
            "pending_host set — resolve with host_decide or skip_night_action"@
        } else {
            match self.pending_night {
                Some(w) => "pending night wake seat "@ + dec(w.seat.0 as nat),
                None => "no pending host/night wait"@,
            }
        }
    }
}

#[verifier::loop_isolation(false)]
fn list_roster(game: &Game, alive: bool) -> (v: Vec<String>)
    ensures
        texts(v@) == game@.roster_tags(game@.seats, alive),
{
    let mut v: Vec<String> = Vec::new();
    let mut i: usize = 0;
    assert(texts(v@) =~= game@.roster_tags(game@.seats.take(0), alive));
    while i < game.seats.len()
        invariant
            i <= game.seats@.len(),
            texts(v@) == game@.roster_tags(game@.seats.take(i as int), alive),
        decreases game.seats@.len() - i,
    {
        let ghost before = v@;
        assert(game@.seats.take(i + 1).drop_last() =~= game@.seats.take(i as int));
        if game.seat_publicly_alive(&game.seats[i]) == alive {
            let t = seat_tag(game.seats[i].id);
            v.push(t);
            assert(texts(v@) =~= texts(before).push(t@));
        }
        i += 1;
    }
    assert(game@.seats.take(i as int) =~= game@.seats);
    v
}

/// The public snapshot for prompts. The roster goes by the **publicly known** life of the seats
/// so a night kill isn't leaked into a later night-order agent's prompt before dawn.
pub fn public_summary(game: &Game) -> (s: String)
    ensures
        s@ == game@.public_snapshot(),
{
    let living = list_roster(game, true);
    let dead = list_roster(game, false);
    let recent = list_recent(game);
    let mut s = "phase: ".to_owned();
    s.append(phase_string(&game.phase).as_str());
    s.append("\nliving: ");
    s.append(join(&living, ", ").as_str());
    s.append("\ndead: ");
    if dead.len() == 0 {
        s.append("none");
    } else {
        s.append(join(&dead, ", ").as_str());
    }
    s.append("\nrecent public events:\n");
    if recent.len() == 0 {
        s.append("(nothing public has happened yet)");
    } else {
        s.append(join(&recent, "\n").as_str());
    }
    s
}

/// What the host is told about open waits.
pub fn host_hint(game: &Game) -> (s: String)
    ensures
        s@ == game@.host_hint(),
{
    if game.pending_host.is_some() {
        "pending_host set — resolve with host_decide or skip_night_action".to_owned()
    } else if let Some(w) = &game.pending_night {
        numbered("pending night wake seat ", w.seat.0 as u64)
    } else {
        "no pending host/night wait".to_owned()
    }
}

/// The snapshot tells nothing about characters, poison, drunkenness or unannounced night kills:
/// tables that look alike from the outside have the same snapshot.
pub proof fn snapshot_keeps_roles_secret(a: GameView, b: GameView)
    requires
        a.phase == b.phase,
        a.public_log == b.public_log,
        a.seats.len() == b.seats.len(),
        forall|i: int|
            0 <= i < a.seats.len() ==> a.seats[i].id == (#[trigger] b.seats[i]).id
                && a.publicly_alive(a.seats[i]) == b.publicly_alive(b.seats[i]),
    ensures
        a.public_snapshot() == b.public_snapshot(),
{
    roster_tags_by_public_life(a, b, a.seats, b.seats, true);
    roster_tags_by_public_life(a, b, a.seats, b.seats, false);
}

proof fn roster_tags_by_public_life(
    a: GameView,
    b: GameView,
    x: Seq<Seat>,
    y: Seq<Seat>,
    alive: bool,
)
    requires
        x.len() == y.len(),
        forall|i: int|
            0 <= i < x.len() ==> x[i].id == (#[trigger] y[i]).id && a.publicly_alive(x[i])
                == b.publicly_alive(y[i]),
    ensures
        a.roster_tags(x, alive) == b.roster_tags(y, alive),
    decreases x.len(),
{
    if x.len() > 0 {
        assert(y[y.len() - 1] == y.last());
        assert forall|i: int| 0 <= i < x.len() - 1 implies x.drop_last()[i].id == (
        #[trigger] y.drop_last()[i]).id && a.publicly_alive(x.drop_last()[i])
            == b.publicly_alive(y.drop_last()[i]) by {
            assert(y[i] == y.drop_last()[i]);
        }
        roster_tags_by_public_life(a, b, x.drop_last(), y.drop_last(), alive);
    }
}

} // verus!
