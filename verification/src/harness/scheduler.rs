//! Turn-routing scheduler.
//!
//! Trouble Brewing is strictly sequential (one night wake at a time; one
//! nomination/vote at a time), but agents run as independent headless sessions.
//! Fan-ticking everyone each cycle leaves most agents with no legal action, so
//! they idle and probe tools. This planner reads the engine state and returns
//! only the agent(s) the game is actually waiting on, so play advances one turn
//! at a time with a targeted prompt.

use crate::game::day::{voted_by, yes_by, OpenNomination, OpenNominationView};
use crate::game::ids::{holds_seat, SeatId};
use crate::game::phase::{DayStage, Phase};
use crate::game::seat::{ids_where, Seat};
use crate::game::state::{Game, GameView};
use crate::text::{dec, join, joined, numbered, push_dec, texts};
use crate::tools::views::{decision_detail, HostDecisionView};
use vstd::prelude::*;
use vstd::string::*;

verus! {

/// What the host agent should do this cycle.
#[derive(Debug, PartialEq, Eq)]
pub enum HostTask {
    /// Game is in lobby; start it.
    StartGame,
    /// A `pending_host` Storyteller decision is blocking progress.
    ResolveDecision { kind: String, detail: String },
    /// Night with no pending player/host wait; advance the night machine.
    AdvanceNight,
    /// A player wake has been stuck for several cycles; skip it to the engine
    /// default so the night can advance (escalation fallback).
    SkipStuckWake { seat: SeatId },
    /// Day discussion; pace it and open nominations when ready.
    PaceDiscussion,
    /// Nominations stage, no open vote; manage nominations.
    ManageNominations,
    /// A vote is open; close/tally it when votes are in.
    CloseVoting,
    /// The table is done for the day; move it on.
    EndDay { in_discussion: bool },
}

/// What a player agent should do this cycle.
#[derive(Debug, PartialEq, Eq)]
pub enum PlayerTask {
    /// The engine is waiting on this seat's night choice.
    NightWake { prompt: String },
    /// Day discussion turn: speak / stake out reads / consider nominating.
    Discuss { round: usize, last_round: bool, directed_reply: bool },
    /// Nominations stage: nominate someone (or decline) this turn.
    Nominate,
    /// A nomination is open and this seat has not voted yet.
    Vote { nomination: String, tally: String, can_pass: bool, nominator_yes: bool },
}

/// One targeted tick the scheduler wants to run this cycle.
#[derive(Debug, PartialEq, Eq)]
pub enum SchedTarget {
    Host(HostTask),
    Player { seat: SeatId, task: PlayerTask },
}

/// What a host task says.
pub enum HostTaskView {
    StartGame,
    ResolveDecision { kind: Seq<char>, detail: Seq<char> },
    AdvanceNight,
    SkipStuckWake { seat: SeatId },
    PaceDiscussion,
    ManageNominations,
    CloseVoting,
    EndDay { in_discussion: bool },
}

/// What a player task says.
pub enum PlayerTaskView {
    NightWake { prompt: Seq<char> },
    Discuss { round: usize, last_round: bool, directed_reply: bool },
    Nominate,
    Vote { nomination: Seq<char>, tally: Seq<char>, can_pass: bool, nominator_yes: bool },
}

/// What a target says.
pub enum SchedTargetView {
    Host(HostTaskView),
    Player { seat: SeatId, task: PlayerTaskView },
}

impl View for HostTask {
    type V = HostTaskView;

    open spec fn view(&self) -> HostTaskView {
        match *self {
            HostTask::StartGame => HostTaskView::StartGame,
            HostTask::ResolveDecision { kind, detail } => HostTaskView::ResolveDecision {
                kind: kind@,
                detail: detail@,
            },
            HostTask::AdvanceNight => HostTaskView::AdvanceNight,
            HostTask::SkipStuckWake { seat } => HostTaskView::SkipStuckWake { seat },
            HostTask::PaceDiscussion => HostTaskView::PaceDiscussion,
            HostTask::ManageNominations => HostTaskView::ManageNominations,
            HostTask::CloseVoting => HostTaskView::CloseVoting,
            HostTask::EndDay { in_discussion } => HostTaskView::EndDay { in_discussion },
        }
    }
}

impl View for PlayerTask {
    type V = PlayerTaskView;

    open spec fn view(&self) -> PlayerTaskView {
        match *self {
            PlayerTask::NightWake { prompt } => PlayerTaskView::NightWake { prompt: prompt@ },
            PlayerTask::Discuss { round, last_round, directed_reply } => PlayerTaskView::Discuss {
                round,
                last_round,
                directed_reply,
            },
            PlayerTask::Nominate => PlayerTaskView::Nominate,
            PlayerTask::Vote { nomination, tally, can_pass, nominator_yes } => PlayerTaskView::Vote {
                nomination: nomination@,
                tally: tally@,
                can_pass,
                nominator_yes,
            },
        }
    }
}

impl View for SchedTarget {
    type V = SchedTargetView;

    open spec fn view(&self) -> SchedTargetView {
        match *self {
            SchedTarget::Host(task) => SchedTargetView::Host(task@),
            SchedTarget::Player { seat, task } => SchedTargetView::Player { seat, task: task@ },
        }
    }
}

impl Clone for HostTask {
    fn clone(&self) -> (t: HostTask)
        ensures
            t@ == self@,
    {
        match self {
            HostTask::StartGame => HostTask::StartGame,
            HostTask::ResolveDecision { kind, detail } => HostTask::ResolveDecision {
                kind: kind.clone(),
                detail: detail.clone(),
            },
            HostTask::AdvanceNight => HostTask::AdvanceNight,
            HostTask::SkipStuckWake { seat } => HostTask::SkipStuckWake { seat: *seat },
            HostTask::PaceDiscussion => HostTask::PaceDiscussion,
            HostTask::ManageNominations => HostTask::ManageNominations,
            HostTask::CloseVoting => HostTask::CloseVoting,
            HostTask::EndDay { in_discussion } => HostTask::EndDay {
                in_discussion: *in_discussion,
            },
        }
    }
}

impl Clone for PlayerTask {
    fn clone(&self) -> (t: PlayerTask)
        ensures
            t@ == self@,
    {
        match self {
            PlayerTask::NightWake { prompt } => PlayerTask::NightWake { prompt: prompt.clone() },
            PlayerTask::Discuss { round, last_round, directed_reply } => PlayerTask::Discuss {
                round: *round,
                last_round: *last_round,
                directed_reply: *directed_reply,
            },
            PlayerTask::Nominate => PlayerTask::Nominate,
            PlayerTask::Vote { nomination, tally, can_pass, nominator_yes } => PlayerTask::Vote {
                nomination: nomination.clone(),
                tally: tally.clone(),
                can_pass: *can_pass,
                nominator_yes: *nominator_yes,
            },
        }
    }
}

impl Clone for SchedTarget {
    fn clone(&self) -> (t: SchedTarget)
        ensures
            t@ == self@,
    {
        match self {
            SchedTarget::Host(task) => SchedTarget::Host(task.clone()),
            SchedTarget::Player { seat, task } => SchedTarget::Player {
                seat: *seat,
                task: task.clone(),
            },
        }
    }
}

/// What a plan says.
pub open spec fn plan_view(plan: Seq<SchedTarget>) -> Seq<SchedTargetView> {
    plan.map_values(|t: SchedTarget| t@)
}

/// Consecutive cycles the engine may sit on the same wait before the scheduler
/// escalates to the host (skip a stuck night wake / force-close a stalled vote).
/// Gives the responsible agent time to actually act before the ST overrides it.
pub const STALL_ESCALATE: usize = 3;

/// A seat that may respond to a nomination: living, or dead with the ghost vote left.
pub open spec fn eligible(s: Seat) -> bool {
    s.alive || s.ghost_vote_available
}

/// The seat has voted or passed on the nomination.
pub open spec fn has_answered(nom: OpenNominationView, id: SeatId) -> bool {
    voted_by(nom.votes, id) || nom.passes.contains(id)
}

/// Words for the ballots cast, in order.
pub open spec fn ballots(votes: Seq<(SeatId, bool)>) -> Seq<Seq<char>> {
    votes.map_values(
        |v: (SeatId, bool)|
            "P"@ + dec(v.0.0 as nat) + (if v.1 { " YES"@ } else { " no"@ }),
    )
}

impl GameView {
    /// The living seats in circle order.
    pub open spec fn living_ids(self) -> Seq<SeatId> {
        ids_where(self.seats, |s: Seat| s.alive)
    }

    /// The living seat whose turn it is, round the table.
    pub open spec fn speaker(self, rotation: usize) -> Option<SeatId> {
        let living = self.living_ids();
        if living.len() == 0 { None } else { Some(living[rotation as int % living.len() as int]) }
    }

    /// How often the turn has gone round the table.
    pub open spec fn talk_round(self, rotation: usize) -> usize {
        let living = self.living_ids();
        if living.len() == 0 { 0 } else { (rotation as int / living.len() as int) as usize }
    }

    /// Who still owes a response to the open nomination, in circle order.
    pub open spec fn voters_left(self, nom: OpenNominationView) -> Seq<SeatId> {
        ids_where(self.seats, |s: Seat| eligible(s) && !has_answered(nom, s.id))
    }

    /// How many seats may respond to a nomination at all.
    pub open spec fn electorate(self) -> Seq<SeatId> {
        ids_where(self.seats, |s: Seat| eligible(s))
    }

    /// Where the open vote stands, in words.
    pub open spec fn tally_text(self, nom: OpenNominationView) -> Seq<char> {
        if nom.votes.len() == 0 {
            "no votes yet — "@ + dec(self.electorate().len()) + " eligible voters"@
        } else {
            joined(ballots(nom.votes), ", "@) + " — "@ + dec(nom.votes.len()) + " of "@ + dec(
                self.electorate().len(),
            ) + " eligible have acted"@
        }
    }

    /// A seat with this id is dead.
    pub open spec fn seat_dead(self, id: SeatId) -> bool {
        crate::game::seat::seat_of(self.seats, id) matches Some(s) && !s.alive
    }

    /// The vote turn of one seat.
    pub open spec fn vote_turn(self, nom: OpenNominationView, seat: SeatId) -> SchedTargetView {
        SchedTargetView::Player {
            seat,
            task: PlayerTaskView::Vote {
                nomination: nomination_text(nom),
                tally: self.tally_text(nom),
                can_pass: self.seat_dead(seat),
                nominator_yes: yes_by(nom.votes, nom.by),
            },
        }
    }

    /// Whom the discussion waits for: a seat that was addressed, else the next speaker.
    pub open spec fn discussion_turn(self, rotation: usize) -> Seq<SchedTargetView> {
        match (self.pending_directed_wake, self.speaker(rotation)) {
            (Some(seat), _) => seq![
                SchedTargetView::Player {
                    seat,
                    task: PlayerTaskView::Discuss {
                        round: self.talk_round(rotation),
                        last_round: false,
                        directed_reply: true,
                    },
                },
            ],
            (None, Some(seat)) => seq![
                SchedTargetView::Player {
                    seat,
                    task: PlayerTaskView::Discuss {
                        round: self.talk_round(rotation),
                        last_round: false,
                        directed_reply: false,
                    },
                },
            ],
            (None, None) => seq![],
        }
    }

    /// Whom the game waits for.
    pub open spec fn plan(self, rotation: usize, stall: usize) -> Seq<SchedTargetView> {
        match self.phase {
            Phase::Lobby => seq![SchedTargetView::Host(HostTaskView::StartGame)],
            Phase::Ended { .. } => seq![],
            Phase::FirstNight { .. } | Phase::Night { .. } => match self.pending_host {
                Some(p) => seq![
                    SchedTargetView::Host(
                        HostTaskView::ResolveDecision {
                            kind: p.kind(),
                            detail: decision_detail(p),
                        },
                    ),
                ],
                None => match self.pending_night {
                    Some(w) => {
                        let turn = seq![
                            SchedTargetView::Player {
                                seat: w.seat,
                                task: PlayerTaskView::NightWake { prompt: w.prompt },
                            },
                        ];
                        if stall >= STALL_ESCALATE {
                            turn.push(
                                SchedTargetView::Host(HostTaskView::SkipStuckWake { seat: w.seat }),
                            )
                        } else {
                            turn
                        }
                    },
                    None => seq![SchedTargetView::Host(HostTaskView::AdvanceNight)],
                },
            },
            Phase::Day { stage: DayStage::Discussion, .. } => seq![
                SchedTargetView::Host(HostTaskView::PaceDiscussion),
            ] + self.discussion_turn(rotation),
            Phase::Day { stage: DayStage::Nominations, .. } => match self.current_nomination {
                Some(nom) => {
                    let voters = self.voters_left(nom);
                    let turns = voters.map_values(|seat: SeatId| self.vote_turn(nom, seat));
                    if voters.len() == 0 || stall >= STALL_ESCALATE {
                        turns.push(SchedTargetView::Host(HostTaskView::CloseVoting))
                    } else {
                        turns
                    }
                },
                None => seq![SchedTargetView::Host(HostTaskView::ManageNominations)]
                    + match self.speaker(rotation) {
                    Some(seat) => seq![
                        SchedTargetView::Player { seat, task: PlayerTaskView::Nominate },
                    ],
                    None => seq![],
                },
            },
        }
    }

    /// What the engine is waiting on, in a form that stays the same while it waits.
    pub open spec fn wait_sign(self) -> Option<Seq<char>> {
        match self.phase {
            Phase::FirstNight { .. } | Phase::Night { .. } => match self.pending_host {
                Some(p) => Some("night_host:"@ + p.kind()),
                None => match self.pending_night {
                    Some(w) => Some("night_wake:"@ + dec(w.seat.0 as nat)),
                    None => None,
                },
            },
            Phase::Day { stage: DayStage::Nominations, .. } => match self.current_nomination {
                Some(n) => Some("vote:"@ + dec(n.by.0 as nat) + "-"@ + dec(n.target.0 as nat)),
                None => None,
            },
            _ => None,
        }
    }
}

/// Words for an open nomination.
pub open spec fn nomination_text(nom: OpenNominationView) -> Seq<char> {
    "seat "@ + dec(nom.by.0 as nat) + " nominated seat "@ + dec(nom.target.0 as nat)
}

/// Plan which agents tick this cycle from the current game state.
///
/// `rotation` advances round-robin turns during discussion / nomination so each
/// living player gets a turn to speak or nominate across successive cycles. A seat
/// that was publicly addressed goes first during discussion.
/// `stall` is how many consecutive prior cycles the engine has sat on the *same*
/// wait (see [`wait_signature`]); once it reaches [`STALL_ESCALATE`] the plan adds
/// a host fallback so a non-acting player / stalled vote can't wedge the game.
/// Returns an empty plan once the game has `Ended` (caller should stop ticking).
pub fn plan_ticks(game: &Game, rotation: usize, stall: usize) -> (plan: Vec<SchedTarget>)
    ensures
        plan_view(plan@) == game@.plan(rotation, stall),
{
    let mut v: Vec<SchedTarget> = Vec::new();
    match &game.phase {
        Phase::Lobby => {
            v.push(SchedTarget::Host(HostTask::StartGame));
        },
        Phase::Ended { .. } => {},
        // Night is strictly sequential: host-or-one-player, never a fan-out.
        Phase::FirstNight { .. } | Phase::Night { .. } => {
            if let Some(ph) = &game.pending_host {
                let shown = HostDecisionView::from_pending(ph);
                v.push(
                    SchedTarget::Host(
                        HostTask::ResolveDecision { kind: shown.kind, detail: shown.detail },
                    ),
                );
            } else if let Some(w) = &game.pending_night {
                // Tick only the woken seat. If it keeps failing to act, escalate to
                // a host skip so the night advances instead of looping forever.
                v.push(
                    SchedTarget::Player {
                        seat: w.seat,
                        task: PlayerTask::NightWake { prompt: w.prompt.clone() },
                    },
                );
                if stall >= STALL_ESCALATE {
                    v.push(SchedTarget::Host(HostTask::SkipStuckWake { seat: w.seat }));
                }
            } else {
                v.push(SchedTarget::Host(HostTask::AdvanceNight));
            }
        },
        Phase::Day { day: _, stage: DayStage::Discussion } => {
            v.push(SchedTarget::Host(HostTask::PaceDiscussion));
            let round = talk_round_of(game, rotation);
            if let Some(seat) = game.pending_directed_wake {
                v.push(
                    SchedTarget::Player {
                        seat,
                        task: PlayerTask::Discuss {
                            round,
                            last_round: false,
                            directed_reply: true,
                        },
                    },
                );
            } else if let Some(seat) = nth_living_rotating(game, rotation) {
                v.push(
                    SchedTarget::Player {
                        seat,
                        task: PlayerTask::Discuss {
                            round,
                            last_round: false,
                            directed_reply: false,
                        },
                    },
                );
            }
        },
        Phase::Day { day: _, stage: DayStage::Nominations } => {
            if let Some(nom) = &game.current_nomination {
                return plan_votes(game, nom, stall);
            }
            v.push(SchedTarget::Host(HostTask::ManageNominations));
            if let Some(seat) = nth_living_rotating(game, rotation) {
                v.push(SchedTarget::Player { seat, task: PlayerTask::Nominate });
            }
        },
    }
    assert(plan_view(v@) =~= game@.plan(rotation, stall));
    v
}

/// Vote turns for the seats that owe a response. The host closer is **not** co-scheduled
/// while votes are pending — it could `close_vote` before they land (votes counted as no, late
/// votes dropped). The engine auto-closes once all have responded; only escalate to a host close
/// if voting genuinely stalls.
#[verifier::loop_isolation(false)]
fn plan_votes(game: &Game, nom: &OpenNomination, stall: usize) -> (v: Vec<SchedTarget>)
    requires
        game.phase matches Phase::Day { stage: DayStage::Nominations, .. },
        game@.current_nomination == Some(nom@),
    ensures
        forall|rotation: usize| plan_view(v@) == #[trigger] game@.plan(rotation, stall),
{
    let voters = pending_voters(game, nom);
    let ghost turns = voters@.map_values(|seat: SeatId| game@.vote_turn(nom@, seat));
    let nominator_yes = said_yes(nom, nom.by);
    let mut v: Vec<SchedTarget> = Vec::new();
    let mut i: usize = 0;
    while i < voters.len()
        invariant
            i <= voters@.len(),
            v@.len() == i,
            forall|k: int| 0 <= k < i ==> (#[trigger] v@[k])@ == turns[k],
        decreases voters@.len() - i,
    {
        let seat = voters[i];
        v.push(
            SchedTarget::Player {
                seat,
                task: PlayerTask::Vote {
                    nomination: nom_desc(nom),
                    tally: tally_of(game, nom),
                    can_pass: is_dead(game, seat),
                    nominator_yes,
                },
            },
        );
        i += 1;
    }
    assert(plan_view(v@) =~= turns);
    if voters.len() == 0 || stall >= STALL_ESCALATE {
        let ghost before = v@;
        v.push(SchedTarget::Host(HostTask::CloseVoting));
        assert(plan_view(v@) =~= turns.push(SchedTargetView::Host(HostTaskView::CloseVoting)));
    }
    v
}

/// A stable signature of what the engine is currently waiting on, for stall
/// detection. `None` in phases that shouldn't stall-escalate (lobby, discussion,
/// ended). The caller compares this cycle's signature to the previous one: same
/// non-`None` signature => increment the stall count; otherwise reset it.
pub fn wait_signature(game: &Game) -> (r: Option<String>)
    ensures
        crate::comms::opt_text(r) == game@.wait_sign(),
{
    match &game.phase {
        Phase::FirstNight { .. } | Phase::Night { .. } => {
            if let Some(ph) = &game.pending_host {
                let mut s = "night_host:".to_owned();
                s.append(ph.kind_str());
                Some(s)
            } else if let Some(w) = &game.pending_night {
                Some(numbered("night_wake:", w.seat.0 as u64))
            } else {
                None
            }
        },
        Phase::Day { day: _, stage: DayStage::Nominations } => match &game.current_nomination {
            Some(n) => {
                let mut s = numbered("vote:", n.by.0 as u64);
                s.append("-");
                push_dec(&mut s, n.target.0 as u64);
                Some(s)
            },
            None => None,
        },
        _ => None,
    }
}

/// Human-readable description of an open nomination for the vote prompt.
fn nom_desc(nom: &OpenNomination) -> (s: String)
    ensures
        s@ == nomination_text(nom@),
{
    let mut s = numbered("seat ", nom.by.0 as u64);
    s.append(" nominated seat ");
    push_dec(&mut s, nom.target.0 as u64);
    s
}

fn said_yes(nom: &OpenNomination, seat: SeatId) -> (b: bool)
    ensures
        b == yes_by(nom.votes@, seat),
{
    let mut i: usize = 0;
    while i < nom.votes.len()
        invariant
            i <= nom.votes@.len(),
            forall|k: int| 0 <= k < i ==> nom.votes@[k] != (seat, true),
        decreases nom.votes@.len() - i,
    {
        if nom.votes[i].0 == seat && nom.votes[i].1 {
            assert(nom.votes@[i as int] == (seat, true));
            return true;
        }
        i += 1;
    }
    false
}

fn answered(nom: &OpenNomination, seat: SeatId) -> (b: bool)
    ensures
        b == has_answered(nom@, seat),
{
    let mut i: usize = 0;
    while i < nom.votes.len()
        invariant
            i <= nom.votes@.len(),
            forall|k: int| 0 <= k < i ==> (#[trigger] nom.votes@[k]).0 != seat,
        decreases nom.votes@.len() - i,
    {
        if nom.votes[i].0 == seat {
            return true;
        }
        i += 1;
    }
    holds_seat(&nom.passes, seat)
}

fn is_dead(game: &Game, seat: SeatId) -> (b: bool)
    ensures
        b == game@.seat_dead(seat),
{
    match crate::game::seat::find_seat(&game.seats, seat) {
        Some(i) => !game.seats[i].alive,
        None => false,
    }
}

#[verifier::loop_isolation(false)]
fn tally_of(game: &Game, nom: &OpenNomination) -> (s: String)
    ensures
        s@ == game@.tally_text(nom@),
{
    let voters = eligible_voters(game);
    if nom.votes.len() == 0 {
        let mut s = numbered("no votes yet — ", voters.len() as u64);
        s.append(" eligible voters");
        return s;
    }
    let ghost word = |v: (SeatId, bool)|
        "P"@ + dec(v.0.0 as nat) + (if v.1 { " YES"@ } else { " no"@ });
    let mut words: Vec<String> = Vec::new();
    let mut i: usize = 0;
    while i < nom.votes.len()
        invariant
            i <= nom.votes@.len(),
            words@.len() == i,
            forall|k: int| 0 <= k < i ==> (#[trigger] words@[k])@ == word(nom.votes@[k]),
        decreases nom.votes@.len() - i,
    {
        let mut w = numbered("P", nom.votes[i].0.0 as u64);
        w.append(if nom.votes[i].1 { " YES" } else { " no" });
        words.push(w);
        i += 1;
    }
    assert(texts(words@) =~= ballots(nom.votes@));
    let mut s = join(&words, ", ");
    s.append(" — ");
    push_dec(&mut s, nom.votes.len() as u64);
    s.append(" of ");
    push_dec(&mut s, voters.len() as u64);
    s.append(" eligible have acted");
    s
}

#[verifier::loop_isolation(false)]
fn living_seats(game: &Game) -> (v: Vec<SeatId>)
    ensures
        v@ == game@.living_ids(),
{
    let ghost keep = |s: Seat| s.alive;
    let mut v: Vec<SeatId> = Vec::new();
    let mut i: usize = 0;
    while i < game.seats.len()
        invariant
            i <= game.seats@.len(),
            v@ == ids_where(game@.seats.take(i as int), keep),
        decreases game.seats@.len() - i,
    {
        assert(game@.seats.take(i + 1).drop_last() =~= game@.seats.take(i as int));
        if game.seats[i].alive {
            v.push(game.seats[i].id);
        }
        i += 1;
    }
    assert(game@.seats.take(i as int) =~= game@.seats);
    v
}

/// The `rotation`-th living seat (round-robin), or `None` if nobody is alive.
fn nth_living_rotating(game: &Game, rotation: usize) -> (r: Option<SeatId>)
    ensures
        r == game@.speaker(rotation),
{
    let living = living_seats(game);
    if living.len() == 0 {
        None
    } else {
        Some(living[rotation % living.len()])
    }
}

fn talk_round_of(game: &Game, rotation: usize) -> (r: usize)
    ensures
        r == game@.talk_round(rotation),
{
    let living = living_seats(game);
    if living.len() == 0 {
        0
    } else {
        rotation / living.len()
    }
}

/// Seats still eligible to act on an open nomination and not yet voted/passed:
/// living players, plus dead players who still hold their one ghost vote.
#[verifier::loop_isolation(false)]
fn pending_voters(game: &Game, nom: &OpenNomination) -> (v: Vec<SeatId>)
    ensures
        v@ == game@.voters_left(nom@),
{
    let ghost keep = |s: Seat| eligible(s) && !has_answered(nom@, s.id);
    let mut v: Vec<SeatId> = Vec::new();
    let mut i: usize = 0;
    while i < game.seats.len()
        invariant
            i <= game.seats@.len(),
            v@ == ids_where(game@.seats.take(i as int), keep),
        decreases game.seats@.len() - i,
    {
        assert(game@.seats.take(i + 1).drop_last() =~= game@.seats.take(i as int));
        let s = &game.seats[i];
        if (s.alive || s.ghost_vote_available) && !answered(nom, s.id) {
            v.push(s.id);
        }
        i += 1;
    }
    assert(game@.seats.take(i as int) =~= game@.seats);
    v
}

#[verifier::loop_isolation(false)]
fn eligible_voters(game: &Game) -> (v: Vec<SeatId>)
    ensures
        v@ == game@.electorate(),
{
    let ghost keep = |s: Seat| eligible(s);
    let mut v: Vec<SeatId> = Vec::new();
    let mut i: usize = 0;
    while i < game.seats.len()
        invariant
            i <= game.seats@.len(),
            v@ == ids_where(game@.seats.take(i as int), keep),
        decreases game.seats@.len() - i,
    {
        assert(game@.seats.take(i + 1).drop_last() =~= game@.seats.take(i as int));
        let s = &game.seats[i];
        if s.alive || s.ghost_vote_available {
            v.push(s.id);
        }
        i += 1;
    }
    assert(game@.seats.take(i as int) =~= game@.seats);
    v
}

// ---------------------------------------------------------------------------
// Laws
// ---------------------------------------------------------------------------

/// Somebody is scheduled in every phase but the last: a game that is not over never waits for
/// nobody, and a game that is over waits for nobody.
pub proof fn somebody_is_always_due(g: GameView, rotation: usize, stall: usize)
    ensures
        g.plan(rotation, stall).len() == 0 <==> g.phase is Ended,
{
    if let Phase::Day { stage: DayStage::Nominations, .. } = g.phase {
        if let Some(nom) = g.current_nomination {
            let voters = g.voters_left(nom);
            assert(voters.map_values(|seat: SeatId| g.vote_turn(nom, seat)).len() == voters.len());
        }
    }
}

/// While votes are outstanding and nothing has stalled, the host is not scheduled to close the
/// vote; only voters are.
pub proof fn host_does_not_race_the_voters(g: GameView, rotation: usize, stall: usize, i: int)
    requires
        g.phase matches Phase::Day { stage: DayStage::Nominations, .. },
        g.current_nomination matches Some(nom) && g.voters_left(nom).len() > 0,
        stall < STALL_ESCALATE,
        0 <= i < g.plan(rotation, stall).len(),
    ensures
        g.plan(rotation, stall)[i] is Player,
{
}

/// At night at most one player is scheduled, and none while a Storyteller decision is open.
pub proof fn nights_are_sequential(g: GameView, rotation: usize, stall: usize, i: int, j: int)
    requires
        g.phase.night_falls(),
        0 <= i < g.plan(rotation, stall).len(),
        0 <= j < g.plan(rotation, stall).len(),
        g.plan(rotation, stall)[i] is Player,
        g.plan(rotation, stall)[j] is Player,
    ensures
        i == j,
        g.pending_host is None,
        g.pending_night matches Some(w) && g.plan(rotation, stall)[i]->seat == w.seat,
{
}

/// In discussion, with nobody addressed, the turn goes round the table: as many consecutive
/// turns as there are living seats reach every one of them.
pub proof fn everyone_gets_a_turn(g: GameView, k: int)
    requires
        0 <= k < g.living_ids().len() <= usize::MAX,
    ensures
        g.speaker(k as usize) == Some(g.living_ids()[k]),
{
    assert(k % g.living_ids().len() as int == k) by (nonlinear_arith)
        requires
            0 <= k < g.living_ids().len(),
    ;
}

} // verus!
