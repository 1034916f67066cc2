//! The board: agents and grimoire fused per seat, plus a live nomination tracker.

use crate::comms::opt_text;
use crate::game::day::{carries, meets_threshold, ClosedNomination, OpenNomination};
use crate::game::ids::SeatId;
use crate::game::phase::{winner_name, winner_word, DayStage, Phase};
use crate::game::seat::{count_living, head_count, Seat};
use crate::game::state::{Game, GameView};
use crate::roles::Character;
use crate::text::{dec, numbered};
use vstd::prelude::*;
use vstd::string::*;

verus! {

// ---------------------------------------------------------------------------
// Snapshot
// ---------------------------------------------------------------------------

/// One seat of the board.
#[derive(Debug, Clone, Copy, PartialEq, Eq, Structural)]
pub struct BoardSeat {
    pub seat: u8,
    pub alive: bool,
    pub true_char: Option<Character>,
    pub believed: Option<Character>,
    pub poisoned: bool,
    pub is_drunk_outsider: bool,
    pub monk_protected: bool,
    pub butler_master: Option<u8>,
    pub ghost_vote_available: bool,
    pub slayer_used: bool,
    pub virgin_used: bool,
}

/// A closed nomination on the board.
#[derive(Debug, Clone, Copy, PartialEq, Eq, Structural)]
pub struct BoardClosedNom {
    pub by: u8,
    pub target: u8,
    pub yes: u32,
    pub meets_threshold: bool,
}

/// The open nomination on the board.
#[derive(Debug)]
pub struct BoardOpenNom {
    pub by: u8,
    pub target: u8,
    pub votes: Vec<(u8, bool)>,
    pub passes: Vec<u8>,
}

/// What the open nomination says.
pub struct BoardOpenNomView {
    pub by: u8,
    pub target: u8,
    pub votes: Seq<(u8, bool)>,
    pub passes: Seq<u8>,
}

impl View for BoardOpenNom {
    type V = BoardOpenNomView;

    open spec fn view(&self) -> BoardOpenNomView {
        BoardOpenNomView {
            by: self.by,
            target: self.target,
            votes: self.votes@,
            passes: self.passes@,
        }
    }
}

/// Host-only board snapshot for the left pane (grimoire + noms). Display only.
#[derive(Debug)]
pub struct BoardSnapshot {
    pub phase_short: String,
    pub pending_host: Option<String>,
    pub pending_night: Option<u8>,
    pub seats: Vec<BoardSeat>,
    pub closed_noms: Vec<BoardClosedNom>,
    pub open_nom: Option<BoardOpenNom>,
}

/// What the snapshot says.
pub struct BoardView {
    pub phase_short: Seq<char>,
    pub pending_host: Option<Seq<char>>,
    pub pending_night: Option<u8>,
    pub seats: Seq<BoardSeat>,
    pub closed_noms: Seq<BoardClosedNom>,
    pub open_nom: Option<BoardOpenNomView>,
}

impl View for BoardSnapshot {
    type V = BoardView;

    open spec fn view(&self) -> BoardView {
        BoardView {
            phase_short: self.phase_short@,
            pending_host: opt_text(self.pending_host),
            pending_night: self.pending_night,
            seats: self.seats@,
            closed_noms: self.closed_noms@,
            open_nom: match self.open_nom {
                Some(o) => Some(o@),
                None => None,
            },
        }
    }
}

/// A day stage in short.
pub open spec fn short_stage(stage: DayStage) -> Seq<char> {
    match stage {
        DayStage::Discussion => "disc"@,
        DayStage::Nominations => "noms"@,
    }
}

pub fn stage_in_short(stage: DayStage) -> (s: &'static str)
    ensures
        s@ == short_stage(stage),
{
    match stage {
        DayStage::Discussion => "disc",
        DayStage::Nominations => "noms",
    }
}

/// The phase in short.
pub open spec fn short_phase(phase: Phase) -> Seq<char> {
    match phase {
        Phase::Lobby => "lobby"@,
        Phase::FirstNight { .. } => "N1"@,
        Phase::Night { night, .. } => "N"@ + dec(night as nat),
        Phase::Day { day, stage } => "D"@ + dec(day as nat) + "·"@ + short_stage(stage),
        Phase::Ended { winner, .. } => "end:"@ + winner_word(winner),
    }
}

fn phase_in_short(phase: &Phase) -> (s: String)
    ensures
        s@ == short_phase(*phase),
{
    match phase {
        Phase::Lobby => "lobby".to_owned(),
        Phase::FirstNight { .. } => "N1".to_owned(),
        Phase::Night { night, .. } => numbered("N", *night as u64),
        Phase::Day { day, stage } => {
            let mut s = numbered("D", *day as u64);
            s.append("·");
            s.append(stage_in_short(*stage));
            s
        },
        Phase::Ended { winner, .. } => {
            let mut s = "end:".to_owned();
            s.append(winner_name(*winner));
            s
        },
    }
}

/// A seat as the board shows it.
pub open spec fn board_seat(s: Seat) -> BoardSeat {
    BoardSeat {
        seat: s.id.0,
        alive: s.alive,
        true_char: s.true_character,
        believed: s.believed_character,
        poisoned: s.poisoned,
        is_drunk_outsider: s.is_drunk_outsider,
        monk_protected: s.monk_protected_tonight,
        butler_master: match s.butler_master {
            Some(m) => Some(m.0),
            None => None,
        },
        ghost_vote_available: s.ghost_vote_available,
        slayer_used: s.slayer_used,
        virgin_used: s.virgin_ability_used,
    }
}

/// A closed nomination as the board shows it.
pub open spec fn board_nom(c: ClosedNomination, living: u32) -> BoardClosedNom {
    BoardClosedNom {
        by: c.by.0,
        target: c.target.0,
        yes: c.yes_votes,
        meets_threshold: carries(c.yes_votes, living),
    }
}

/// What the board shows of a game.
pub open spec fn board_of(g: GameView) -> BoardView {
    BoardView {
        phase_short: short_phase(g.phase),
        pending_host: match g.pending_host {
            Some(p) => Some(p.kind()),
            None => None,
        },
        pending_night: match g.pending_night {
            Some(w) => Some(w.seat.0),
            None => None,
        },
        seats: g.seats.map_values(|s: Seat| board_seat(s)),
        closed_noms: g.closed_nominations.map_values(
            |c: ClosedNomination| board_nom(c, head_count(g.seats)),
        ),
        open_nom: match g.current_nomination {
            Some(o) => Some(
                BoardOpenNomView {
                    by: o.by.0,
                    target: o.target.0,
                    votes: o.votes.map_values(|v: (SeatId, bool)| (v.0.0, v.1)),
                    passes: o.passes.map_values(|s: SeatId| s.0),
                },
            ),
            None => None,
        },
    }
}

fn seat_on_board(s: &Seat) -> (b: BoardSeat)
    ensures
        b == board_seat(*s),
{
    BoardSeat {
        seat: s.id.0,
        alive: s.alive,
        true_char: s.true_character,
        believed: s.believed_character,
        poisoned: s.poisoned,
        is_drunk_outsider: s.is_drunk_outsider,
        monk_protected: s.monk_protected_tonight,
        butler_master: match s.butler_master {
            Some(m) => Some(m.0),
            None => None,
        },
        ghost_vote_available: s.ghost_vote_available,
        slayer_used: s.slayer_used,
        virgin_used: s.virgin_ability_used,
    }
}

fn open_on_board(o: &OpenNomination) -> (b: BoardOpenNom)
    ensures
        b@ == (BoardOpenNomView {
            by: o.by.0,
            target: o.target.0,
            votes: o.votes@.map_values(|v: (SeatId, bool)| (v.0.0, v.1)),
            passes: o.passes@.map_values(|s: SeatId| s.0),
        }),
{
    let mut votes: Vec<(u8, bool)> = Vec::new();
    let mut i: usize = 0;
    while i < o.votes.len()
        invariant
            i <= o.votes@.len(),
            votes@.len() == i,
            forall|k: int|
                0 <= k < i ==> (#[trigger] votes@[k]) == (o.votes@[k].0.0, o.votes@[k].1),
        decreases o.votes@.len() - i,
    {
        votes.push((o.votes[i].0.0, o.votes[i].1));
        i += 1;
    }
    let mut passes: Vec<u8> = Vec::new();
    let mut j: usize = 0;
    while j < o.passes.len()
        invariant
            j <= o.passes@.len(),
            passes@.len() == j,
            forall|k: int| 0 <= k < j ==> (#[trigger] passes@[k]) == o.passes@[k].0,
        decreases o.passes@.len() - j,
    {
        passes.push(o.passes[j].0);
        j += 1;
    }
    assert(votes@ =~= o.votes@.map_values(|v: (SeatId, bool)| (v.0.0, v.1)));
    assert(passes@ =~= o.passes@.map_values(|s: SeatId| s.0));
    BoardOpenNom { by: o.by.0, target: o.target.0, votes, passes }
}

/// Take the board snapshot of a game.
pub fn board_snapshot(g: &Game) -> (b: BoardSnapshot)
    ensures
        b@ == board_of(g@),
{
    let living = count_living(&g.seats);
    let mut seats: Vec<BoardSeat> = Vec::new();
    let mut i: usize = 0;
    while i < g.seats.len()
        invariant
            i <= g.seats@.len(),
            seats@.len() == i,
            forall|k: int| 0 <= k < i ==> (#[trigger] seats@[k]) == board_seat(g.seats@[k]),
        decreases g.seats@.len() - i,
    {
        seats.push(seat_on_board(&g.seats[i]));
        i += 1;
    }
    assert(seats@ =~= board_of(g@).seats);
    let mut closed_noms: Vec<BoardClosedNom> = Vec::new();
    let mut j: usize = 0;
    while j < g.closed_nominations.len()
        invariant
            j <= g.closed_nominations@.len(),
            closed_noms@.len() == j,
            living == head_count(g.seats@),
            forall|k: int|
                0 <= k < j ==> (#[trigger] closed_noms@[k]) == board_nom(
                    g.closed_nominations@[k],
                    living,
                ),
        decreases g.closed_nominations@.len() - j,
    {
        let c = &g.closed_nominations[j];
        closed_noms.push(
            BoardClosedNom {
                by: c.by.0,
                target: c.target.0,
                yes: c.yes_votes,
                meets_threshold: meets_threshold(c.yes_votes, living),
            },
        );
        j += 1;
    }
    assert(closed_noms@ =~= board_of(g@).closed_noms);
    BoardSnapshot {
        phase_short: phase_in_short(&g.phase),
        pending_host: match &g.pending_host {
            Some(p) => Some(p.kind_str().to_owned()),
            None => None,
        },
        pending_night: match &g.pending_night {
            Some(w) => Some(w.seat.0),
            None => None,
        },
        seats,
        closed_noms,
        open_nom: match &g.current_nomination {
            Some(o) => Some(open_on_board(o)),
            None => None,
        },
    }
}

} // verus!
