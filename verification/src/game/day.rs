//! Day machine: nominations, voting, Virgin, Butler, ghost votes.

use crate::auth::{Actor, Token};
use crate::comms::{PublicEvent, PublicEventView};
use crate::error::GameError;
use crate::game::ability::evil::on_poisoner_left_play;
use crate::game::ability::register::{register_demon_for_ft, registers_as_townsfolk};
use crate::game::ids::{holds_seat, SeatId};
use crate::game::phase::{DayStage, EndReason, Phase, Winner};
use crate::game::seat::{find_seat, head_count, seat_index, seat_of, with_seat, Seat};
use crate::game::state::{settles, Game, GameView};
use crate::game::win::{
    apply_demon_death, end_game, first_where, first_where_is_first, living_count, win_check,
};
use crate::roles::Character;
use crate::text::{dec, numbered, push_dec};
use vstd::prelude::*;
use vstd::string::*;

verus! {

/// In-progress nomination with open vote window.
#[derive(Debug, Clone, PartialEq, Eq)]
pub struct OpenNomination {
    pub by: SeatId,
    pub target: SeatId,
    /// Explicit votes cast so far (`true` = support / yes).
    pub votes: Vec<(SeatId, bool)>,
    /// Dead seats that passed (abstain without spending ghost vote).
    pub passes: Vec<SeatId>,
}

/// An open nomination as plain values.
pub struct OpenNominationView {
    pub by: SeatId,
    pub target: SeatId,
    pub votes: Seq<(SeatId, bool)>,
    pub passes: Seq<SeatId>,
}

impl View for OpenNomination {
    type V = OpenNominationView;

    open spec fn view(&self) -> OpenNominationView {
        OpenNominationView {
            by: self.by,
            target: self.target,
            votes: self.votes@,
            passes: self.passes@,
        }
    }
}

/// Closed nomination record for the day (leader comparison).
#[derive(Debug, Clone, Copy, PartialEq, Eq, Structural)]
pub struct ClosedNomination {
    pub by: SeatId,
    pub target: SeatId,
    pub yes_votes: u32,
}

impl GameView {
    /// Nobody has nominated, been nominated or voted today.
    pub open spec fn with_day_votes_reset(self) -> GameView {
        GameView {
            day_nominators: seq![],
            day_nominees: seq![],
            current_nomination: None,
            closed_nominations: seq![],
            ..self
        }
    }
}

/// Clear per-day nomination / vote tracking (call at dawn).
pub fn reset_day_vote_state(game: &mut Game)
    ensures
        final(game)@ == old(game)@.with_day_votes_reset(),
{
    game.day_nominators = Vec::new();
    game.day_nominees = Vec::new();
    game.current_nomination = None;
    game.closed_nominations = Vec::new();
}

/// `yes * 2 >= living` (half rounded up for odd; half for even).
pub fn meets_threshold(yes: u32, living: u32) -> (b: bool)
    ensures
        b == carries(yes, living),
{
    if living == 0 {
        return false;
    }
    yes as u64 * 2 >= living as u64
}

/// At least half of the living, of whom there is one, voted yes.
pub open spec fn carries(yes: u32, living: u32) -> bool {
    living > 0 && yes * 2 >= living
}

/// The seat cast a vote.
pub open spec fn voted_by(votes: Seq<(SeatId, bool)>, seat: SeatId) -> bool {
    exists|i: int| 0 <= i < votes.len() && (#[trigger] votes[i]).0 == seat
}

/// The seat cast a yes vote.
pub open spec fn yes_by(votes: Seq<(SeatId, bool)>, seat: SeatId) -> bool {
    votes.contains((seat, true))
}

/// Number of yes votes.
pub open spec fn yes_total(votes: Seq<(SeatId, bool)>) -> nat
    decreases votes.len(),
{
    if votes.len() == 0 {
        0
    } else {
        yes_total(votes.drop_last()) + if votes.last().1 { 1nat } else { 0nat }
    }
}

/// Number of yes votes as the record holds it (the count stops at `u32::MAX`).
pub open spec fn yes_tally(votes: Seq<(SeatId, bool)>) -> u32 {
    if yes_total(votes) < u32::MAX { yes_total(votes) as u32 } else { u32::MAX }
}

/// Nomination `i` carries and has more yes votes than any other that carries.
pub open spec fn strictly_leads(noms: Seq<ClosedNomination>, living: u32, i: int) -> bool {
    &&& 0 <= i < noms.len()
    &&& carries(noms[i].yes_votes, living)
    &&& forall|j: int|
        0 <= j < noms.len() && j != i && carries((#[trigger] noms[j]).yes_votes, living)
            ==> noms[j].yes_votes < noms[i].yes_votes
}

/// The nominee who is about to die: the one with the strictly highest carrying vote.
pub open spec fn block_leader(noms: Seq<ClosedNomination>, living: u32) -> Option<SeatId> {
    if exists|i: int| strictly_leads(noms, living, i) {
        Some(noms[choose|i: int| strictly_leads(noms, living, i)].target)
    } else {
        None
    }
}

/// The day after `day` (it stops at `u32::MAX`).
pub open spec fn next_day(day: u32) -> u32 {
    if day < u32::MAX { (day + 1) as u32 } else { day }
}

/// Once this many are alive and nobody is executed, a working Mayor wins for Good.
pub const MAYOR_LIVING: u32 = 3;

impl GameView {
    /// The token is the host's.
    pub open spec fn is_host(self, token: Seq<char>) -> bool {
        self.tokens.actor(token) == Some(Actor::Host)
    }

    /// Play may go on: the game is not decided and no Storyteller decision is open.
    pub open spec fn in_play(self) -> Result<(), GameError> {
        if self.over() {
            Err(GameError::GameEnded)
        } else {
            self.no_pending_host()
        }
    }

    /// The stage of the day.
    pub open spec fn day_stage(self) -> Result<(u32, DayStage), GameError> {
        match self.phase {
            Phase::Day { day, stage } => Ok((day, stage)),
            _ => Err(GameError::WrongPhase),
        }
    }

    /// Discussion turns into nominations.
    pub open spec fn nominations_opened(self) -> Result<GameView, GameError> {
        match self.in_play() {
            Err(e) => Err(e),
            Ok(_) => match self.phase {
                Phase::Day { day, stage: DayStage::Discussion } => if self.current_nomination
                    is Some {
                    Err(GameError::IllegalAction("vote already open"))
                } else {
                    Ok(self.with_nominations(day))
                },
                _ => Err(GameError::WrongPhase),
            },
        }
    }

    /// The game at the start of the nominations of a day.
    pub open spec fn with_nominations(self, day: u32) -> GameView {
        GameView {
            phase: Phase::Day { day, stage: DayStage::Nominations },
            ..self
        }.announce("Nominations are open."@).publish(
            PublicEventView::PhaseChanged {
                summary: "Day "@ + dec(day as nat) + " — Nominations"@,
            },
        )
    }

    /// The nomination is on the day's record and on the public log.
    pub open spec fn nomination_recorded(self, by: SeatId, target: SeatId) -> GameView {
        GameView {
            day_nominators: if self.day_nominators.contains(by) {
                self.day_nominators
            } else {
                self.day_nominators.push(by)
            },
            day_nominees: if self.day_nominees.contains(target) {
                self.day_nominees
            } else {
                self.day_nominees.push(target)
            },
            ..self
        }.publish(PublicEventView::Nominated { by, target })
    }

    /// A vote window opens, and the nominator votes yes where a vote of theirs is legal.
    #[verifier::opaque]
    pub open spec fn vote_window_opened(self, by: SeatId, target: SeatId) -> GameView {
        let opened = GameView {
            current_nomination: Some(
                OpenNominationView { by, target, votes: seq![], passes: seq![] },
            ),
            ..self
        };
        match opened.voted(by, target, true) {
            Ok(g) => g,
            Err(_) => opened,
        }
    }

    /// Why a nomination is refused; `Ok` if it is legal.
    pub open spec fn nomination_legal(self, by: SeatId, target: SeatId) -> Result<(), GameError> {
        if self.in_play() is Err {
            self.in_play()
        } else if !(self.phase is Day) {
            Err(GameError::WrongPhase)
        } else if self.executed_today is Some {
            Err(GameError::IllegalAction("already executed today"))
        } else if self.current_nomination is Some {
            Err(GameError::IllegalAction("vote in progress"))
        } else if by == target {
            Err(GameError::IllegalAction("cannot nominate yourself"))
        } else {
            match seat_of(self.seats, by) {
                None => Err(GameError::NoSuchSeat),
                Some(nominator) => if !nominator.alive {
                    Err(GameError::IllegalAction("dead players cannot nominate"))
                } else if self.day_nominators.contains(by) {
                    Err(GameError::IllegalAction("already nominated today"))
                } else {
                    match seat_of(self.seats, target) {
                        None => Err(GameError::NoSuchSeat),
                        Some(nominee) => if !nominee.alive {
                            Err(GameError::IllegalAction("cannot nominate the dead"))
                        } else if self.day_nominees.contains(target) {
                            Err(GameError::IllegalAction("target already nominated today"))
                        } else {
                            Ok(())
                        },
                    }
                },
            }
        }
    }

    /// A nomination: legal ones open the nominations where needed, spend the Virgin's power on
    /// her first nomination (executing a nominator who shows as Townsfolk, if the power works),
    /// and otherwise open the vote.
    #[verifier::opaque]
    pub open spec fn nominated(self, by: SeatId, target: SeatId) -> Result<GameView, GameError> {
        match self.nomination_legal(by, target) {
            Err(e) => Err(e),
            Ok(_) => {
                let open = match self.phase {
                    Phase::Day { day, stage: DayStage::Discussion } => self.with_nominations(day),
                    _ => self,
                };
                let nominee = seat_of(self.seats, target)->0;
                if nominee.true_character == Some(Character::Virgin)
                    && !nominee.virgin_ability_used {
                    Ok(open.virgin_nominated(by, target))
                } else {
                    Ok(open.nomination_recorded(by, target).vote_window_opened(by, target))
                }
            },
        }
    }

    /// The Virgin's first nomination: her power is spent; if it works and the nominator shows
    /// as Townsfolk the nominator is executed, else the vote opens.
    #[verifier::opaque]
    pub open spec fn virgin_nominated(self, by: SeatId, target: SeatId) -> GameView {
        let virgin = seat_of(self.seats, target)->0;
        let spent = GameView {
            seats: with_seat(self.seats, target, Seat { virgin_ability_used: true, ..virgin }),
            ..self
        }.nomination_recorded(by, target);
        if !virgin.disabled() && spent.registers_townsfolk(
            by,
            "virgin_reg:day:nom:"@ + dec(by.0 as nat),
        ) {
            spent.announce(
                "The Virgin's power triggers. The nominator is executed."@,
            ).executed(by).day_auto_ended()
        } else {
            spent.vote_window_opened(by, target)
        }
    }

    /// The open vote that a response of a seat goes to, or why there is none.
    pub open spec fn ballot_for(self, seat: SeatId, nominee: Option<SeatId>) -> Result<
        OpenNominationView,
        GameError,
    > {
        if self.in_play() is Err {
            Err(self.in_play()->Err_0)
        } else if !(self.phase matches Phase::Day { stage: DayStage::Nominations, .. }) {
            Err(GameError::WrongPhase)
        } else {
            match self.current_nomination {
                None => Err(GameError::IllegalAction("no open nomination")),
                Some(open) => if nominee is Some && open.target != nominee->0 {
                    Err(GameError::IllegalAction("nominee is not current nomination"))
                } else if voted_by(open.votes, seat) {
                    Err(
                        GameError::IllegalAction(
                            "already voted on this nomination (one vote per seat per nomination)",
                        ),
                    )
                } else if open.passes.contains(seat) {
                    Err(
                        GameError::IllegalAction(
                            "already passed on this nomination (one response per seat per nomination)",
                        ),
                    )
                } else {
                    Ok(open)
                },
            }
        }
    }

    /// A vote: one response per seat and nomination; the dead vote yes once per game; a working
    /// Butler votes yes only behind their master. The last response closes the vote.
    #[verifier::opaque]
    pub open spec fn voted(self, seat: SeatId, nominee: SeatId, support: bool) -> Result<
        GameView,
        GameError,
    > {
        match self.ballot_for(seat, Some(nominee)) {
            Err(e) => Err(e),
            Ok(open) => match seat_of(self.seats, seat) {
                None => Err(GameError::NoSuchSeat),
                Some(voter) => if !voter.alive && !voter.ghost_vote_available {
                    Err(GameError::IllegalAction("ghost vote already spent"))
                } else if support && voter.true_character == Some(Character::Butler) && voter.alive
                    && !voter.disabled() && !(voter.butler_master matches Some(m) && yes_by(
                    open.votes,
                    m,
                )) {
                    Err(GameError::IllegalAction("Butler may only vote yes if master has voted yes"))
                } else {
                    let spent = if !voter.alive && support {
                        GameView {
                            seats: with_seat(
                                self.seats,
                                seat,
                                Seat { ghost_vote_available: false, ..voter },
                            ),
                            ..self
                        }
                    } else {
                        self
                    };
                    let cast = GameView {
                        current_nomination: Some(
                            OpenNominationView { votes: open.votes.push((seat, support)), ..open },
                        ),
                        ..spent.publish(PublicEventView::VoteCast { seat, nominee, support })
                    };
                    Ok(cast.closed_when_complete())
                },
            },
        }
    }

    /// A dead seat with a ghost vote abstains and keeps it.
    #[verifier::opaque]
    pub open spec fn passed(self, seat: SeatId) -> Result<GameView, GameError> {
        match self.ballot_for(seat, None) {
            Err(e) => Err(e),
            Ok(open) => match seat_of(self.seats, seat) {
                None => Err(GameError::NoSuchSeat),
                Some(voter) => if voter.alive {
                    Err(GameError::IllegalAction("only dead players may pass a vote"))
                } else if !voter.ghost_vote_available {
                    Err(GameError::IllegalAction("ghost vote already spent"))
                } else {
                    Ok(
                        GameView {
                            current_nomination: Some(
                                OpenNominationView { passes: open.passes.push(seat), ..open },
                            ),
                            ..self
                        }.closed_when_complete(),
                    )
                },
            },
        }
    }

    /// Everyone who can still respond to the open vote has done so.
    pub open spec fn vote_complete(self) -> bool {
        match self.current_nomination {
            None => false,
            Some(open) => forall|i: int|
                0 <= i < self.seats.len() ==> seat_responded(open, #[trigger] self.seats[i]),
        }
    }

    /// The vote closes by itself once it is complete.
    #[verifier::opaque]
    pub open spec fn closed_when_complete(self) -> GameView {
        if self.vote_complete() { self.tallied().day_auto_ended() } else { self }
    }

    /// The open vote is counted and announced.
    pub open spec fn tallied(self) -> GameView {
        match self.current_nomination {
            None => self,
            Some(open) => GameView {
                current_nomination: None,
                closed_nominations: self.closed_nominations.push(
                    ClosedNomination {
                        by: open.by,
                        target: open.target,
                        yes_votes: yes_tally(open.votes),
                    },
                ),
                ..self
            }.announce(
                "Votes closed on seat "@ + dec(open.target.0 as nat) + ": "@ + dec(
                    yes_tally(open.votes) as nat,
                ) + " yes vote(s)."@,
            ),
        }
    }

    /// Seat `i` may still nominate seat `j` today.
    pub open spec fn may_nominate(self, i: int, j: int) -> bool {
        &&& 0 <= i < self.seats.len() && 0 <= j < self.seats.len()
        &&& self.seats[i].alive && self.seats[j].alive
        &&& self.seats[i].id != self.seats[j].id
        &&& !self.day_nominators.contains(self.seats[i].id)
        &&& !self.day_nominees.contains(self.seats[j].id)
    }

    /// Some living player can still open a legal nomination, or a vote is open.
    pub open spec fn nomination_remains(self) -> bool {
        self.executed_today is None && (self.current_nomination is Some || exists|i: int, j: int|
            self.may_nominate(i, j))
    }

    /// The nominations of an undecided day end once none can follow.
    #[verifier::opaque]
    pub open spec fn day_auto_ended(self) -> GameView {
        match self.phase {
            Phase::Day { day, stage: DayStage::Nominations } => if self.winner is Some
                || self.pending_host is Some || self.current_nomination is Some
                || self.nomination_remains() {
                self
            } else {
                self.day_closed(day)
            },
            _ => self,
        }
    }

    /// A working Mayor wins: three are alive and nobody was executed.
    pub open spec fn mayor_wins(self) -> bool {
        head_count(self.seats) == MAYOR_LIVING && first_where(
            self.seats,
            |s: Seat| s.alive && s.true_character == Some(Character::Mayor) && !s.disabled(),
        ) is Some
    }

    /// The end of the nominations of `day`: the leader is executed or nobody is, and unless
    /// that decides the game the next night begins.
    #[verifier::opaque]
    pub open spec fn day_closed(self, day: u32) -> GameView {
        let counted = self.tallied();
        let judged = if counted.executed_today is Some {
            counted
        } else {
            match block_leader(counted.closed_nominations, head_count(counted.seats)) {
                Some(leader) => counted.executed(leader),
                None => {
                    let spared = counted.publish(PublicEventView::NoExecution).announce(
                        "No execution today."@,
                    );
                    if spared.mayor_wins() {
                        spared.ended(Winner::Good, EndReason::MayorThreeNoExec)
                    } else {
                        spared.win_checked()
                    }
                },
            }
        };
        if judged.over() { judged } else { judged.night_entered(next_day(day)) }
    }

    /// The host ends the nominations.
    pub open spec fn nominations_ended(self) -> Result<GameView, GameError> {
        match self.in_play() {
            Err(e) => Err(e),
            Ok(_) => match self.phase {
                Phase::Day { day, stage: DayStage::Nominations } => Ok(self.day_closed(day)),
                _ => Err(GameError::WrongPhase),
            },
        }
    }

    /// An execution: the seat dies and keeps one vote, the poison of a dead Poisoner ends, an
    /// executed working Saint loses the game for Good, a dead Imp may be succeeded, and the win
    /// is checked.
    #[verifier::opaque]
    pub open spec fn executed(self, seat: SeatId) -> GameView {
        let alive_before = head_count(self.seats);
        let found = seat_of(self.seats, seat);
        let buried = match found {
            Some(s) => if s.alive {
                GameView {
                    seats: with_seat(
                        self.seats,
                        seat,
                        Seat { alive: false, ghost_vote_available: true, ..s },
                    ),
                    ..self
                }
            } else {
                self
            },
            None => self,
        };
        let told = GameView { executed_today: Some(seat), ..buried }.publish(
            PublicEventView::Executed { seat },
        ).publish(PublicEventView::PlayerDied { seat });
        match found {
            None => told.win_checked(),
            Some(s) => {
                let cured = if s.true_character == Some(Character::Poisoner) {
                    told.unpoisoned()
                } else {
                    told
                };
                if s.true_character == Some(Character::Saint) && !s.disabled() {
                    cured.ended(Winner::Evil, EndReason::SaintExecuted)
                } else if s.true_character == Some(Character::Imp) {
                    cured.demon_succeeded(alive_before).win_checked()
                } else {
                    cured.win_checked()
                }
            },
        }
    }

    /// The host closes the open vote.
    pub open spec fn vote_closed(self) -> Result<GameView, GameError> {
        match self.in_play() {
            Err(e) => Err(e),
            Ok(_) => match self.phase {
                Phase::Day { stage: DayStage::Nominations, .. } => if self.current_nomination
                    is None {
                    Err(GameError::IllegalAction("no open nomination"))
                } else {
                    Ok(self.tallied().day_auto_ended())
                },
                _ => Err(GameError::WrongPhase),
            },
        }
    }

    /// A request that only the host may make, and none while a Storyteller decision is open.
    pub open spec fn host_request(
        self,
        token: Seq<char>,
        outcome: Result<GameView, GameError>,
    ) -> Result<
        GameView,
        GameError,
    > {
        if !self.is_host(token) {
            Err(GameError::Unauthorized)
        } else if self.pending_host is Some {
            Err(self.no_pending_host()->Err_0)
        } else {
            outcome
        }
    }

    /// The Slayer's shot lands on this living seat.
    #[verifier::opaque]
    pub open spec fn slain(self, target: SeatId, was_imp: bool) -> GameView {
        let alive_before = head_count(self.seats);
        match seat_of(self.seats, target) {
            Some(s) => if s.alive {
                let told = GameView {
                    seats: with_seat(
                        self.seats,
                        target,
                        Seat { alive: false, ghost_vote_available: true, ..s },
                    ),
                    ..self
                }.publish(PublicEventView::PlayerDied { seat: target }).announce(
                    "Seat "@ + dec(target.0 as nat) + " dies."@,
                );
                if was_imp {
                    told.demon_succeeded(alive_before).win_checked()
                } else {
                    told.win_checked()
                }
            } else {
                self
            },
            None => self,
        }
    }

    /// The Slayer's day action: anyone who faces as Slayer may try once; the shot is spent in
    /// any case and kills only from a working true Slayer, and only the Imp or a Recluse who
    /// shows as one.
    #[verifier::opaque]
    pub open spec fn slew(self, slayer: SeatId, target: SeatId) -> Result<GameView, GameError> {
        if self.in_play() is Err {
            Err(self.in_play()->Err_0)
        } else if !(self.phase is Day) {
            Err(GameError::WrongPhase)
        } else {
            match seat_of(self.seats, slayer) {
                None => Err(GameError::NoSuchSeat),
                Some(s) => if !s.alive {
                    Err(GameError::IllegalAction("dead players cannot slay"))
                } else if s.face() != Some(Character::Slayer) {
                    Err(GameError::IllegalAction("not the Slayer"))
                } else if s.slayer_used {
                    Err(GameError::IllegalAction("Slayer ability already used"))
                } else {
                    match seat_of(self.seats, target) {
                        None => Err(GameError::NoSuchSeat),
                        Some(t) => {
                            let spent = GameView {
                                seats: with_seat(
                                    self.seats,
                                    slayer,
                                    Seat { slayer_used: true, ..s },
                                ),
                                ..self
                            };
                            if s.true_character != Some(Character::Slayer) || s.disabled()
                                || !t.alive {
                                Ok(spent)
                            } else if t.true_character == Some(Character::Imp) {
                                Ok(spent.slain(target, true))
                            } else if t.true_character == Some(Character::Recluse)
                                && !t.disabled() && spent.registers_demon(
                                target,
                                "slayer_reg:day:"@ + dec(target.0 as nat),
                            ) {
                                Ok(spent.slain(target, false))
                            } else {
                                Ok(spent)
                            }
                        },
                    }
                },
            }
        }
    }
}

/// The living have voted; the dead with a ghost vote have voted or passed; the other dead have
/// nothing to say.
pub open spec fn seat_responded(open: OpenNominationView, s: Seat) -> bool {
    if s.alive {
        voted_by(open.votes, s.id)
    } else {
        s.ghost_vote_available ==> voted_by(open.votes, s.id) || open.passes.contains(s.id)
    }
}

fn require_in_play(game: &Game) -> (r: Result<(), GameError>)
    ensures
        r == game@.in_play(),
{
    if game.winner.is_some() || game.phase.is_ended() {
        return Err(GameError::GameEnded);
    }
    game.require_no_pending_host()
}

fn day_stage(game: &Game) -> (r: Result<(u32, DayStage), GameError>)
    ensures
        r == game@.day_stage(),
{
    match game.phase {
        Phase::Day { day, stage } => Ok((day, stage)),
        _ => Err(GameError::WrongPhase),
    }
}

fn is_host_token(game: &Game, token: &Token) -> (b: bool)
    ensures
        b == game@.is_host(token@),
{
    match game.tokens.resolve(token) {
        Some(Actor::Host) => true,
        _ => false,
    }
}

/// Host: Discussion → Nominations.
pub fn open_nominations(game: &mut Game, host: &Token) -> (r: Result<(), GameError>)
    ensures
        settles(
            old(game)@.host_request(host@, old(game)@.nominations_opened()),
            old(game)@,
            final(game)@,
            r,
        ),
{
    if !is_host_token(game, host) {
        return Err(GameError::Unauthorized);
    }
    if let Err(e) = game.require_no_pending_host() {
        return Err(e);
    }
    open_nominations_inner(game)
}

/// Discussion → Nominations (no host auth; used by host tool and first nominate auto-open).
fn open_nominations_inner(game: &mut Game) -> (r: Result<(), GameError>)
    ensures
        settles(old(game)@.nominations_opened(), old(game)@, final(game)@, r),
{
    if let Err(e) = require_in_play(game) {
        return Err(e);
    }
    let (day, stage) = match day_stage(game) {
        Ok(ds) => ds,
        Err(e) => return Err(e),
    };
    if stage != DayStage::Discussion {
        return Err(GameError::WrongPhase);
    }
    if game.current_nomination.is_some() {
        return Err(GameError::IllegalAction("vote already open"));
    }
    game.phase = Phase::Day { day, stage: DayStage::Nominations };
    game.st_announce("Nominations are open.".to_owned());
    let mut summary = numbered("Day ", day as u64);
    summary.append(" — Nominations");
    game.public_log.push(PublicEvent::PhaseChanged { summary });
    Ok(())
}

/// Record a nomination on the public day trackers (after ST registration is known).
fn commit_nomination_public(game: &mut Game, by: SeatId, target: SeatId)
    ensures
        final(game)@ == old(game)@.nomination_recorded(by, target),
{
    if !holds_seat(&game.day_nominators, by) {
        game.day_nominators.push(by);
    }
    if !holds_seat(&game.day_nominees, target) {
        game.day_nominees.push(target);
    }
    game.public_log.push(PublicEvent::Nominated { by, target });
}

/// Open the vote window and try the nominator's automatic yes.
///
/// Delegates to [`vote`] so Butler / ghost / double-vote legality stays in one place.
/// A living Butler whose master has not yet voted yes cannot auto-yes yet — they simply
/// take a normal Vote turn later under the master rule. Disabled Butler (poisoned/drunk)
/// may auto-yes freely, matching `vote()`.
fn open_nomination_with_nominator_yes(game: &mut Game, by: SeatId, target: SeatId)
    ensures
        final(game)@ == old(game)@.vote_window_opened(by, target),
{
    reveal(GameView::vote_window_opened);
    game.current_nomination = Some(
        OpenNomination { by, target, votes: Vec::new(), passes: Vec::new() },
    );
    // An `Err` (e.g. Butler without master yes) leaves the nominator a pending voter.
    let _ = vote(game, by, target, true);
}

/// Player: open a nomination and start the vote window (or Virgin bounce).
///
/// Allowed from Day Nominations, or from Discussion (auto-opens nominations first).
///
/// All legality checks run **before** auto-opening Nominations from Discussion so a
/// rejected nominate never mutates phase or the public log.
///
/// On success (when a vote window opens), the nominator is recorded as an automatic
/// **yes** — they do not need to call `vote` for their own nomination.
pub fn nominate(game: &mut Game, by: SeatId, target: SeatId) -> (r: Result<(), GameError>)
    ensures
        settles(old(game)@.nominated(by, target), old(game)@, final(game)@, r),
{
    reveal(GameView::nominated);
    if let Err(e) = check_nomination(game, by, target) {
        return Err(e);
    }
    // Auto-open only after the nomination is known-legal (Discussion → Nominations).
    if let Phase::Day { stage: DayStage::Discussion, .. } = game.phase {
        let _ = open_nominations_inner(game);
    }
    let nominee = match find_seat(&game.seats, target) {
        Some(i) => i,
        None => return Err(GameError::NoSuchSeat),
    };
    let is_virgin_first_nom = game.seats[nominee].true_character == Some(Character::Virgin)
        && !game.seats[nominee].virgin_ability_used;
    if is_virgin_first_nom {
        nominate_virgin(game, by, target, nominee);
    } else {
        commit_nomination_public(game, by, target);
        open_nomination_with_nominator_yes(game, by, target);
    }
    Ok(())
}

/// The first nomination of the Virgin always spends the once-per-game ability, even if
/// poisoned/drunk. Execution only if ability is active AND nominator registers as Townsfolk
/// (Spy may).
///
/// Spy/Recluse registration for the Virgin is resolved **immediately** via
/// `registration_mode` (never a day-blocking host pause) so the public path is
/// identical to a normal nomination — no limbo leak and no probe channel.
fn nominate_virgin(game: &mut Game, by: SeatId, target: SeatId, nominee: usize)
    requires
        seat_index(old(game)@.seats, target) == Some(nominee as int),
        nominee < old(game)@.seats.len(),
    ensures
        final(game)@ == old(game)@.virgin_nominated(by, target),
{
    reveal(GameView::virgin_nominated);
    let virgin_disabled = game.seats[nominee].ability_disabled();
    game.seats[nominee].virgin_ability_used = true;
    commit_nomination_public(game, by, target);
    if !virgin_disabled {
        let virgin_label = numbered("virgin_reg:day:nom:", by.0 as u64);
        if registers_as_townsfolk(game, by, virgin_label.as_str()) {
            game.st_announce(
                "The Virgin's power triggers. The nominator is executed.".to_owned(),
            );
            resolve_execution(game, by);
            try_auto_end_day(game);
            return;
        }
    }
    // Disabled, or nominator does not register as Townsfolk: ability spent, vote proceeds.
    open_nomination_with_nominator_yes(game, by, target);
}

/// Why a nomination is refused, if it is.
fn check_nomination(game: &Game, by: SeatId, target: SeatId) -> (r: Result<(), GameError>)
    ensures
        r == game@.nomination_legal(by, target),
{
    if let Err(e) = require_in_play(game) {
        return Err(e);
    }
    if let Err(e) = day_stage(game) {
        return Err(e);
    }
    if game.executed_today.is_some() {
        return Err(GameError::IllegalAction("already executed today"));
    }
    if game.current_nomination.is_some() {
        return Err(GameError::IllegalAction("vote in progress"));
    }
    if by == target {
        return Err(GameError::IllegalAction("cannot nominate yourself"));
    }
    let nominator = match find_seat(&game.seats, by) {
        Some(i) => i,
        None => return Err(GameError::NoSuchSeat),
    };
    if !game.seats[nominator].alive {
        return Err(GameError::IllegalAction("dead players cannot nominate"));
    }
    if holds_seat(&game.day_nominators, by) {
        return Err(GameError::IllegalAction("already nominated today"));
    }
    let nominee = match find_seat(&game.seats, target) {
        Some(i) => i,
        None => return Err(GameError::NoSuchSeat),
    };
    if !game.seats[nominee].alive {
        return Err(GameError::IllegalAction("cannot nominate the dead"));
    }
    if holds_seat(&game.day_nominees, target) {
        return Err(GameError::IllegalAction("target already nominated today"));
    }
    Ok(())
}

fn has_voted(votes: &Vec<(SeatId, bool)>, seat: SeatId) -> (b: bool)
    ensures
        b == voted_by(votes@, seat),
{
    let mut i: usize = 0;
    while i < votes.len()
        invariant
            i <= votes.len(),
            forall|k: int| 0 <= k < i ==> (#[trigger] votes@[k]).0 != seat,
        decreases votes.len() - i,
    {
        if votes[i].0 == seat {
            return true;
        }
        i += 1;
    }
    false
}

fn has_voted_yes(votes: &Vec<(SeatId, bool)>, seat: SeatId) -> (b: bool)
    ensures
        b == yes_by(votes@, seat),
{
    let mut i: usize = 0;
    while i < votes.len()
        invariant
            i <= votes.len(),
            forall|k: int| 0 <= k < i ==> votes@[k] != (seat, true),
        decreases votes.len() - i,
    {
        if votes[i].0 == seat && votes[i].1 {
            assert(votes@[i as int] == (seat, true));
            return true;
        }
        i += 1;
    }
    false
}

/// Why a seat may not respond to the open vote, if it may not.
fn check_ballot(game: &Game, seat: SeatId, nominee: Option<SeatId>) -> (r: Result<(), GameError>)
    ensures
        match game@.ballot_for(seat, nominee) {
            Ok(open) => r is Ok && game@.current_nomination == Some(open),
            Err(e) => r == Err::<(), GameError>(e),
        },
{
    if let Err(e) = require_in_play(game) {
        return Err(e);
    }
    match day_stage(game) {
        Ok((_day, stage)) => {
            if stage != DayStage::Nominations {
                return Err(GameError::WrongPhase);
            }
        },
        Err(e) => return Err(e),
    }
    let open = match &game.current_nomination {
        Some(o) => o,
        None => return Err(GameError::IllegalAction("no open nomination")),
    };
    if let Some(n) = nominee {
        if open.target != n {
            return Err(GameError::IllegalAction("nominee is not current nomination"));
        }
    }
    // One response per seat per open nomination. Multiple nominations per day are fine;
    // re-voting the same open nomination is not.
    if has_voted(&open.votes, seat) {
        return Err(
            GameError::IllegalAction(
                "already voted on this nomination (one vote per seat per nomination)",
            ),
        );
    }
    if holds_seat(&open.passes, seat) {
        return Err(
            GameError::IllegalAction(
                "already passed on this nomination (one response per seat per nomination)",
            ),
        );
    }
    Ok(())
}

/// Player: cast yes/no on the current open nomination.
pub fn vote(game: &mut Game, seat: SeatId, nominee: SeatId, support: bool) -> (r: Result<
    (),
    GameError,
>)
    ensures
        settles(old(game)@.voted(seat, nominee, support), old(game)@, final(game)@, r),
{
    reveal(GameView::voted);
    if let Err(e) = check_ballot(game, seat, Some(nominee)) {
        return Err(e);
    }
    let voter = match find_seat(&game.seats, seat) {
        Some(i) => i,
        None => return Err(GameError::NoSuchSeat),
    };
    let alive = game.seats[voter].alive;
    if !alive {
        // Dead with spent ghost: no further votes (yes or no).
        if !game.seats[voter].ghost_vote_available {
            return Err(GameError::IllegalAction("ghost vote already spent"));
        }
        // Dead with ghost available: yes spends; no does not spend but records a response.
    }
    let is_butler = game.seats[voter].true_character == Some(Character::Butler);
    if support && is_butler && alive && !game.seats[voter].ability_disabled() {
        // Butler may only vote yes if master has already voted yes on this nom.
        let master_yes = match (game.seats[voter].butler_master, &game.current_nomination) {
            (Some(m), Some(open)) => has_voted_yes(&open.votes, m),
            _ => false,
        };
        if !master_yes {
            return Err(
                GameError::IllegalAction("Butler may only vote yes if master has voted yes"),
            );
        }
    }
    // Apply ghost spend on yes.
    if !alive && support {
        game.seats[voter].ghost_vote_available = false;
    }
    game.public_log.push(PublicEvent::VoteCast { seat, nominee, support });
    if let Some(open) = game.current_nomination.as_mut() {
        open.votes.push((seat, support));
    }
    // Auto-close when living all voted and every dead with ghost remaining has voted or passed.
    close_when_complete(game);
    Ok(())
}

/// Dead player only: abstain on the open nomination without spending the ghost vote.
///
/// Marks the seat as having responded so auto-close can proceed once all living have voted
/// and every other ghost-holder has voted or passed. Host [`close_vote`] may still force-close.
pub fn pass_vote(game: &mut Game, seat: SeatId) -> (r: Result<(), GameError>)
    ensures
        settles(old(game)@.passed(seat), old(game)@, final(game)@, r),
{
    reveal(GameView::passed);
    if let Err(e) = check_ballot(game, seat, None) {
        return Err(e);
    }
    let voter = match find_seat(&game.seats, seat) {
        Some(i) => i,
        None => return Err(GameError::NoSuchSeat),
    };
    if game.seats[voter].alive {
        return Err(GameError::IllegalAction("only dead players may pass a vote"));
    }
    if !game.seats[voter].ghost_vote_available {
        return Err(GameError::IllegalAction("ghost vote already spent"));
    }
    // Ghost token is retained; seat is recorded as responded for auto-close.
    if let Some(open) = game.current_nomination.as_mut() {
        open.passes.push(seat);
    }
    close_when_complete(game);
    Ok(())
}

/// Living all voted, and every dead seat with remaining ghost vote has voted or [`pass_vote`]d.
/// Dead without ghost vote remaining are skipped. Host [`close_vote`] may still force-close.
#[verifier::loop_isolation(false)]
fn nomination_ready_to_auto_close(game: &Game) -> (b: bool)
    ensures
        b == game@.vote_complete(),
{
    let open = match &game.current_nomination {
        Some(o) => o,
        None => return false,
    };
    let mut i: usize = 0;
    while i < game.seats.len()
        invariant
            i <= game.seats.len(),
            forall|k: int| 0 <= k < i ==> seat_responded(open@, #[trigger] game@.seats[k]),
        decreases game.seats.len() - i,
    {
        let s = &game.seats[i];
        let responded = if s.alive {
            has_voted(&open.votes, s.id)
        } else {
            !s.ghost_vote_available || has_voted(&open.votes, s.id) || holds_seat(
                &open.passes,
                s.id,
            )
        };
        if !responded {
            assert(!seat_responded(open@, game@.seats[i as int]));
            return false;
        }
        i += 1;
    }
    true
}

fn close_when_complete(game: &mut Game)
    ensures
        final(game)@ == old(game)@.closed_when_complete(),
{
    reveal(GameView::closed_when_complete);
    if nomination_ready_to_auto_close(game) {
        close_vote_tally_only(game);
        try_auto_end_day(game);
    }
}

/// Host: finalize the current nomination's tally.
///
/// When no further legal nomination remains after the tally, this also runs
/// day end (execution leader / enter night).
pub fn close_vote(game: &mut Game, host: &Token) -> (r: Result<(), GameError>)
    ensures
        settles(
            if old(game)@.is_host(host@) {
                old(game)@.vote_closed()
            } else {
                Err(GameError::Unauthorized)
            },
            old(game)@,
            final(game)@,
            r,
        ),
{
    if !is_host_token(game, host) {
        return Err(GameError::Unauthorized);
    }
    if let Err(e) = require_in_play(game) {
        return Err(e);
    }
    match day_stage(game) {
        Ok((_day, stage)) => {
            if stage != DayStage::Nominations {
                return Err(GameError::WrongPhase);
            }
        },
        Err(e) => return Err(e),
    }
    if game.current_nomination.is_none() {
        return Err(GameError::IllegalAction("no open nomination"));
    }
    close_vote_tally_only(game);
    // When no further legal nomination exists, end the day automatically.
    try_auto_end_day(game);
    Ok(())
}

/// True when some living player can still open a legal nomination.
#[verifier::loop_isolation(false)]
fn any_legal_nomination_remaining(game: &Game) -> (b: bool)
    ensures
        b == game@.nomination_remains(),
{
    if game.executed_today.is_some() {
        return false;
    }
    if game.current_nomination.is_some() {
        return true;
    }
    let mut i: usize = 0;
    while i < game.seats.len()
        invariant
            i <= game.seats.len(),
            forall|a: int, b: int| a < i ==> !game@.may_nominate(a, b),
        decreases game.seats.len() - i,
    {
        let by = &game.seats[i];
        if by.alive && !holds_seat(&game.day_nominators, by.id) {
            let mut j: usize = 0;
            while j < game.seats.len()
                invariant
                    j <= game.seats.len(),
                    forall|b: int| b < j ==> !game@.may_nominate(i as int, b),
                decreases game.seats.len() - j,
            {
                let target = &game.seats[j];
                if target.alive && target.id != by.id && !holds_seat(
                    &game.day_nominees,
                    target.id,
                ) {
                    assert(game@.may_nominate(i as int, j as int));
                    return true;
                }
                j += 1;
            }
        }
        i += 1;
    }
    false
}

/// End day (execute leader / enter night) when no further nominations are possible.
fn try_auto_end_day(game: &mut Game)
    ensures
        final(game)@ == old(game)@.day_auto_ended(),
{
    reveal(GameView::day_auto_ended);
    if game.winner.is_some() || game.phase.is_ended() {
        return;
    }
    // Never auto-end while a Storyteller decision is outstanding.
    if game.pending_host.is_some() {
        return;
    }
    match day_stage(game) {
        Ok((_day, stage)) => {
            if stage != DayStage::Nominations {
                return;
            }
        },
        Err(_) => return,
    }
    if game.current_nomination.is_some() {
        return;
    }
    if any_legal_nomination_remaining(game) {
        return;
    }
    let _ = end_nominations_inner(game);
}

/// Current execution candidate: threshold met and strictly highest yes total today.
#[verifier::loop_isolation(false)]
pub fn execution_leader(game: &Game) -> (r: Option<SeatId>)
    ensures
        r == block_leader(game@.closed_nominations, head_count(game@.seats)),
{
    let living = living_count(game);
    let ghost noms = game@.closed_nominations;
    let mut best: Option<usize> = None;
    let mut tie = false;
    let mut i: usize = 0;
    while i < game.closed_nominations.len()
        invariant
            i <= game.closed_nominations.len(),
            match best {
                None => !tie && forall|k: int|
                    0 <= k < i ==> !carries((#[trigger] noms[k]).yes_votes, living),
                Some(b) => b < i && carries(noms[b as int].yes_votes, living) && (forall|k: int|
                    0 <= k < i && carries((#[trigger] noms[k]).yes_votes, living)
                        ==> noms[k].yes_votes <= noms[b as int].yes_votes) && (tie <==> exists|k: int|
                    0 <= k < i && k != b && carries((#[trigger] noms[k]).yes_votes, living)
                        && noms[k].yes_votes == noms[b as int].yes_votes),
            },
        decreases game.closed_nominations.len() - i,
    {
        let c = game.closed_nominations[i];
        let ghost was_best = best;
        let ghost was_tie = tie;
        if meets_threshold(c.yes_votes, living) {
            match best {
                None => {
                    best = Some(i);
                    tie = false;
                },
                Some(b) => {
                    let top = game.closed_nominations[b].yes_votes;
                    if c.yes_votes > top {
                        best = Some(i);
                        tie = false;
                    } else if c.yes_votes == top {
                        tie = true;
                        assert(noms[i as int].yes_votes == noms[b as int].yes_votes);
                    }
                },
            }
        }
        proof {
            if let Some(b) = was_best {
                if best == was_best && was_tie {
                    let k = choose|k: int|
                        0 <= k < i && k != b && carries((#[trigger] noms[k]).yes_votes, living)
                            && noms[k].yes_votes == noms[b as int].yes_votes;
                    assert(0 <= k < i + 1 && k != b && carries(noms[k].yes_votes, living)
                        && noms[k].yes_votes == noms[b as int].yes_votes);
                }
            }
        }
        i += 1;
    }
    proof {
        match best {
            Some(b) => {
                if !tie {
                    assert(strictly_leads(noms, living, b as int));
                    let k = choose|k: int| strictly_leads(noms, living, k);
                    assert(k == b);
                } else {
                    let k = choose|k: int|
                        0 <= k < i && k != b && carries((#[trigger] noms[k]).yes_votes, living)
                            && noms[k].yes_votes == noms[b as int].yes_votes;
                    assert forall|m: int| !strictly_leads(noms, living, m) by {
                        if strictly_leads(noms, living, m) {
                            assert(m == b || noms[b as int].yes_votes < noms[m].yes_votes);
                            assert(m == k || noms[k].yes_votes < noms[m].yes_votes);
                        }
                    }
                }
            },
            None => {
                assert forall|m: int| !strictly_leads(noms, living, m) by {}
            },
        }
    }
    match best {
        Some(b) => if tie { None } else { Some(game.closed_nominations[b].target) },
        None => None,
    }
}

/// Host: force-end nominations (execute leader if any), then begin the next night.
///
/// Day also auto-ends when no legal nominations remain.
pub fn end_nominations(game: &mut Game, host: &Token) -> (r: Result<(), GameError>)
    ensures
        settles(
            old(game)@.host_request(host@, old(game)@.nominations_ended()),
            old(game)@,
            final(game)@,
            r,
        ),
{
    if !is_host_token(game, host) {
        return Err(GameError::Unauthorized);
    }
    if let Err(e) = game.require_no_pending_host() {
        return Err(e);
    }
    end_nominations_inner(game)
}

/// Execute the vote leader (if any), win checks, enter night. No host auth.
fn end_nominations_inner(game: &mut Game) -> (r: Result<(), GameError>)
    ensures
        settles(old(game)@.nominations_ended(), old(game)@, final(game)@, r),
{
    reveal(GameView::day_closed);
    if let Err(e) = require_in_play(game) {
        return Err(e);
    }
    let (day, stage) = match day_stage(game) {
        Ok(ds) => ds,
        Err(e) => return Err(e),
    };
    if stage != DayStage::Nominations {
        return Err(GameError::WrongPhase);
    }
    // Close any dangling open vote as no majority progress (missing = no).
    close_vote_tally_only(game);
    if game.executed_today.is_none() {
        if let Some(leader) = execution_leader(game) {
            resolve_execution(game, leader);
        } else {
            game.public_log.push(PublicEvent::NoExecution);
            game.st_announce("No execution today.".to_owned());
            // Mayor: 3 living + no execution → Good.
            if mayor_three_no_exec_wins(game) {
                end_game(game, Winner::Good, EndReason::MayorThreeNoExec);
            } else {
                win_check(game);
            }
        }
    }
    if game.winner.is_some() || game.phase.is_ended() {
        return Ok(());
    }
    // Next night is day + 1 (Day 1 → Night 2).
    game.enter_night(day.saturating_add(1));
    Ok(())
}

fn count_yes(votes: &Vec<(SeatId, bool)>) -> (n: u32)
    ensures
        n == yes_tally(votes@),
{
    let mut n: u32 = 0;
    let mut i: usize = 0;
    while i < votes.len()
        invariant
            i <= votes.len(),
            n == yes_tally(votes@.take(i as int)),
        decreases votes.len() - i,
    {
        if votes[i].1 {
            n = n.saturating_add(1);
        }
        i += 1;
        assert(votes@.take(i as int).drop_last() =~= votes@.take(i - 1));
    }
    assert(votes@.take(i as int) =~= votes@);
    n
}

/// Finalize open nomination tally without auto-ending the day.
fn close_vote_tally_only(game: &mut Game)
    ensures
        final(game)@ == old(game)@.tallied(),
{
    if let Some(open) = game.current_nomination.take() {
        // Missing votes count as no (only explicit yes is counted).
        let yes = count_yes(&open.votes);
        game.closed_nominations.push(
            ClosedNomination { by: open.by, target: open.target, yes_votes: yes },
        );
        let mut text = numbered("Votes closed on seat ", open.target.0 as u64);
        text.append(": ");
        push_dec(&mut text, yes as u64);
        text.append(" yes vote(s).");
        game.st_announce(text);
    }
}

/// True when living==3 and a living Mayor has an active (non-disabled) ability.
#[verifier::loop_isolation(false)]
fn mayor_three_no_exec_wins(game: &Game) -> (b: bool)
    ensures
        b == game@.mayor_wins(),
{
    if living_count(game) != MAYOR_LIVING {
        return false;
    }
    let ghost wanted = |s: Seat|
        s.alive && s.true_character == Some(Character::Mayor) && !s.disabled();
    proof {
        first_where_is_first(game@.seats, wanted);
    }
    let mut i: usize = 0;
    while i < game.seats.len()
        invariant
            i <= game.seats.len(),
            forall|k: int| 0 <= k < i ==> !wanted(#[trigger] game@.seats[k]),
        decreases game.seats.len() - i,
    {
        let s = &game.seats[i];
        if s.alive && s.true_character == Some(Character::Mayor) && !s.ability_disabled() {
            assert(wanted(game@.seats[i as int]));
            return true;
        }
        i += 1;
    }
    false
}

/// Mark seat dead via execution; Saint → Evil; Imp → SW / demon death; then win check.
pub fn resolve_execution(game: &mut Game, seat: SeatId)
    ensures
        final(game)@ == old(game)@.executed(seat),
{
    reveal(GameView::executed);
    let alive_before = living_count(game);
    let mut true_char: Option<Character> = None;
    let mut disabled = true;
    if let Some(i) = find_seat(&game.seats, seat) {
        true_char = game.seats[i].true_character;
        disabled = game.seats[i].ability_disabled();
        if game.seats[i].alive {
            game.seats[i].alive = false;
            // Dead seats keep / gain one ghost vote for the rest of the game.
            game.seats[i].ghost_vote_available = true;
            assert(game@.seats =~= with_seat(
                old(game)@.seats,
                seat,
                Seat { alive: false, ghost_vote_available: true, ..old(game)@.seats[i as int] },
            ));
        }
    }
    game.executed_today = Some(seat);
    game.public_log.push(PublicEvent::Executed { seat });
    // Also surface as immediate day death for consumers that listen for PlayerDied.
    game.public_log.push(PublicEvent::PlayerDied { seat });
    // Poison ends when the Poisoner dies (any path).
    if true_char == Some(Character::Poisoner) {
        on_poisoner_left_play(game);
    }
    // Saint: execution causes Evil win if ability is active (not poisoned/drunk).
    if true_char == Some(Character::Saint) && !disabled {
        end_game(game, Winner::Evil, EndReason::SaintExecuted);
        return;
    }
    if true_char == Some(Character::Imp) {
        apply_demon_death(game, alive_before);
    }
    win_check(game);
}

/// Slayer once-per-game day action.
///
/// Allowed in Day Discussion or Nominations. Spends `slayer_used` even on miss / disabled.
/// Hit: target is true Imp (or Recluse registering as Demon) and Slayer is active → death + win
/// check.
pub fn day_action_slay(game: &mut Game, slayer: SeatId, target: SeatId) -> (r: Result<
    (),
    GameError,
>)
    ensures
        settles(old(game)@.slew(slayer, target), old(game)@, final(game)@, r),
{
    reveal(GameView::slew);
    if let Err(e) = require_in_play(game) {
        return Err(e);
    }
    if let Err(e) = day_stage(game) {
        return Err(e);
    }
    let si = match find_seat(&game.seats, slayer) {
        Some(i) => i,
        None => return Err(GameError::NoSuchSeat),
    };
    if !game.seats[si].alive {
        return Err(GameError::IllegalAction("dead players cannot slay"));
    }
    // Allow attempt if player-facing role is Slayer (Drunk face) or true Slayer.
    if game.seats[si].visible_character() != Some(Character::Slayer) {
        return Err(GameError::IllegalAction("not the Slayer"));
    }
    if game.seats[si].slayer_used {
        return Err(GameError::IllegalAction("Slayer ability already used"));
    }
    let disabled = game.seats[si].ability_disabled();
    let true_is_slayer = game.seats[si].true_character == Some(Character::Slayer);
    // Validate the target BEFORE spending / the disabled short-circuit so a Drunk-face or
    // poisoned Slayer returns exactly the same result (error / silent miss) as a healthy
    // Slayer for a given target — no disabled-status is inferable from an error.
    let ti = match find_seat(&game.seats, target) {
        Some(i) => i,
        None => return Err(GameError::NoSuchSeat),
    };
    let target_alive = game.seats[ti].alive;
    let target_true = game.seats[ti].true_character;
    let target_disabled = game.seats[ti].ability_disabled();
    game.seats[si].slayer_used = true;
    if !true_is_slayer || disabled {
        // Silent miss (Drunk face / poisoned / drunk).
        return Ok(());
    }
    if !target_alive {
        return Ok(());
    }
    // True Imp: always a hit (no ST discretion).
    if target_true == Some(Character::Imp) {
        apply_slayer_kill(game, target, true);
        return Ok(());
    }
    // Recluse-as-Demon via `registration_mode` immediately (no day-blocking host pause).
    if target_true == Some(Character::Recluse) && !target_disabled {
        let demon_label = numbered("slayer_reg:day:", target.0 as u64);
        if register_demon_for_ft(game, target, demon_label.as_str()) {
            apply_slayer_kill(game, target, false);
        }
    }
    // Otherwise a silent miss.
    Ok(())
}

fn apply_slayer_kill(game: &mut Game, target: SeatId, was_true_imp: bool)
    ensures
        final(game)@ == old(game)@.slain(target, was_true_imp),
{
    reveal(GameView::slain);
    let i = match find_seat(&game.seats, target) {
        Some(i) => i,
        None => return,
    };
    if !game.seats[i].alive {
        return;
    }
    let alive_before = living_count(game);
    game.seats[i].alive = false;
    game.seats[i].ghost_vote_available = true;
    assert(game@.seats =~= with_seat(
        old(game)@.seats,
        target,
        Seat { alive: false, ghost_vote_available: true, ..old(game)@.seats[i as int] },
    ));
    game.public_log.push(PublicEvent::PlayerDied { seat: target });
    let mut text = numbered("Seat ", target.0 as u64);
    text.append(" dies.");
    game.st_announce(text);
    if was_true_imp {
        apply_demon_death(game, alive_before);
    }
    win_check(game);
}

impl Game {
    pub fn open_nominations(&mut self, host: &Token) -> (r: Result<(), GameError>)
        ensures
            settles(
                old(self)@.host_request(host@, old(self)@.nominations_opened()),
                old(self)@,
                final(self)@,
                r,
            ),
    {
        open_nominations(self, host)
    }

    pub fn nominate(&mut self, by: SeatId, target: SeatId) -> (r: Result<(), GameError>)
        ensures
            settles(old(self)@.nominated(by, target), old(self)@, final(self)@, r),
    {
        nominate(self, by, target)
    }

    pub fn vote(&mut self, seat: SeatId, nominee: SeatId, support: bool) -> (r: Result<
        (),
        GameError,
    >)
        ensures
            settles(old(self)@.voted(seat, nominee, support), old(self)@, final(self)@, r),
    {
        vote(self, seat, nominee, support)
    }

    pub fn pass_vote(&mut self, seat: SeatId) -> (r: Result<(), GameError>)
        ensures
            settles(old(self)@.passed(seat), old(self)@, final(self)@, r),
    {
        pass_vote(self, seat)
    }

    pub fn close_vote(&mut self, host: &Token) -> (r: Result<(), GameError>)
        ensures
            settles(
                if old(self)@.is_host(host@) {
                    old(self)@.vote_closed()
                } else {
                    Err(GameError::Unauthorized)
                },
                old(self)@,
                final(self)@,
                r,
            ),
    {
        close_vote(self, host)
    }

    pub fn end_nominations(&mut self, host: &Token) -> (r: Result<(), GameError>)
        ensures
            settles(
                old(self)@.host_request(host@, old(self)@.nominations_ended()),
                old(self)@,
                final(self)@,
                r,
            ),
    {
        end_nominations(self, host)
    }

    pub fn day_action_slay(&mut self, slayer: SeatId, target: SeatId) -> (r: Result<
        (),
        GameError,
    >)
        ensures
            settles(old(self)@.slew(slayer, target), old(self)@, final(self)@, r),
    {
        day_action_slay(self, slayer, target)
    }
}

} // verus!
