//! Night queue construction and night machine (pending wake protocol).

use crate::auth::{Actor, Token};
use crate::comms::{
    copy_seats, PrivateInboxesView, PrivateMessage, PrivateMessageView, PublicEvent,
    PublicEventView,
};
use crate::error::GameError;
use crate::game::ability::evil::{apply_poison, clear_poisons};
use crate::game::ability::info::set_butler_master;
use crate::game::ability::protect::{apply_monk_protect, clear_monk_protection};
use crate::game::day::reset_day_vote_state;
use crate::game::ids::SeatId;
use crate::game::phase::{DayStage, NightStep, Phase};
use crate::game::seat::{find_seat, seat_of, Seat};
use crate::game::state::{settles, Game, GameView};
use crate::game::win::{first_where, first_where_is_first};
use crate::roles::data::name_of;
use crate::roles::night_order::{
    first_night_order, first_night_sheet, other_night_order, other_night_sheet, FirstNightSlot,
    OtherNightSlot,
};
use crate::roles::{type_of, Character, CharacterType};
use crate::text::{dec, join, joined, numbered, push_dec, texts};
use vstd::prelude::*;
use vstd::string::*;

verus! {

/// Legal shape of a night choice (shown to the acting seat only).
#[derive(Debug, Clone, Copy, PartialEq, Eq, Structural)]
pub enum ChoiceSchema {
    /// No target; player acknowledges the wake (info-only roles that still wait).
    Ack,
    /// One seat target.
    PickOne {
        /// If true, any seat id in the game; else living only when `living_only`.
        any_seat: bool,
        living_only: bool,
        exclude_self: bool,
    },
    /// Two seat targets (Fortune Teller).
    PickTwo { any_seat: bool },
}

/// Player payload for a night action. Role is inferred from pending wake / seat.
#[derive(Debug, Clone, PartialEq, Eq)]
pub enum NightActionPayload {
    Ack,
    PickOne { target: SeatId },
    PickTwo { a: SeatId, b: SeatId },
    PickCharacter { name: String },
}

/// Active wake waiting on a player (or host skip).
#[derive(Debug, PartialEq, Eq)]
pub struct PendingWake {
    pub step: NightStep,
    pub seat: SeatId,
    pub schema: ChoiceSchema,
    pub prompt: String,
}

/// A pending wake as plain values.
pub struct PendingWakeView {
    pub step: NightStep,
    pub seat: SeatId,
    pub schema: ChoiceSchema,
    pub prompt: Seq<char>,
}

impl View for PendingWake {
    type V = PendingWakeView;

    open spec fn view(&self) -> PendingWakeView {
        PendingWakeView {
            step: self.step,
            seat: self.seat,
            schema: self.schema,
            prompt: self.prompt@,
        }
    }
}

impl Clone for PendingWake {
    fn clone(&self) -> (p: PendingWake)
        ensures
            p@ == self@,
    {
        PendingWake {
            step: self.step,
            seat: self.seat,
            schema: self.schema,
            prompt: self.prompt.clone(),
        }
    }
}

// ---------------------------------------------------------------------------
// Queue construction
// ---------------------------------------------------------------------------

/// The seat's true character is of this kind.
pub open spec fn truly(s: Seat, ty: CharacterType) -> bool {
    s.true_character matches Some(c) && type_of(c) == ty
}

/// The night step of a first-night slot.
pub open spec fn first_step_of(slot: FirstNightSlot, seat: SeatId) -> NightStep {
    match slot {
        FirstNightSlot::Poisoner => NightStep::Poisoner { seat },
        FirstNightSlot::Spy => NightStep::Spy { seat },
        FirstNightSlot::Washerwoman => NightStep::Washerwoman { seat },
        FirstNightSlot::Librarian => NightStep::Librarian { seat },
        FirstNightSlot::Investigator => NightStep::Investigator { seat },
        FirstNightSlot::Chef => NightStep::Chef { seat },
        FirstNightSlot::Empath => NightStep::Empath { seat },
        FirstNightSlot::FortuneTeller => NightStep::FortuneTeller { seat },
        FirstNightSlot::Butler => NightStep::Butler { seat },
    }
}

/// The night step of an other-night slot.
pub open spec fn other_step_of(slot: OtherNightSlot, seat: SeatId) -> NightStep {
    match slot {
        OtherNightSlot::Poisoner => NightStep::Poisoner { seat },
        OtherNightSlot::Monk => NightStep::Monk { seat },
        OtherNightSlot::Spy => NightStep::Spy { seat },
        OtherNightSlot::Imp => NightStep::DemonKill { seat },
        OtherNightSlot::Ravenkeeper => NightStep::Ravenkeeper { seat },
        OtherNightSlot::Undertaker => NightStep::Undertaker { seat },
        OtherNightSlot::Empath => NightStep::Empath { seat },
        OtherNightSlot::FortuneTeller => NightStep::FortuneTeller { seat },
        OtherNightSlot::Butler => NightStep::Butler { seat },
    }
}

impl GameView {
    /// The seat of this id wakes as `role`, by true character or by face.
    pub open spec fn wakes_as(self, seat: SeatId, role: Character, by_true: bool) -> bool {
        match seat_of(self.seats, seat) {
            Some(s) => if by_true { s.true_character == Some(role) } else { s.face() == Some(role) },
            None => false,
        }
    }

    /// The first living seat that wakes as `role`.
    pub open spec fn wake_seat(self, role: Character, by_true: bool) -> Option<SeatId> {
        match first_where(self.seats, |s: Seat| s.alive && self.wakes_as(s.id, role, by_true)) {
            Some(i) => Some(self.seats[i].id),
            None => None,
        }
    }

    /// The wakes of first-night slots, in sheet order.
    pub open spec fn first_wakes(self, slots: Seq<FirstNightSlot>) -> Seq<NightStep>
        decreases slots.len(),
    {
        if slots.len() == 0 {
            seq![]
        } else {
            let front = self.first_wakes(slots.drop_last());
            let slot = slots.last();
            match self.wake_seat(slot.wakes(), slot.by_true_character()) {
                Some(seat) => front.push(first_step_of(slot, seat)),
                None => front,
            }
        }
    }

    /// Evil briefings happen from seven seats on; Minions are briefed only if one is alive.
    pub open spec fn evil_briefings(self) -> Seq<NightStep> {
        if self.seats.len() < 7 {
            seq![]
        } else if first_where(self.seats, |s: Seat| s.alive && truly(s, CharacterType::Minion))
            is Some {
            seq![NightStep::MinionBriefing, NightStep::DemonBriefing]
        } else {
            seq![NightStep::DemonBriefing]
        }
    }

    /// The first night: setup, evil briefings, the wakes of the sheet, dawn.
    pub open spec fn first_night_steps(self) -> Seq<NightStep> {
        (seq![NightStep::SetupMarkers] + self.evil_briefings() + self.first_wakes(
            first_night_sheet(),
        )).push(NightStep::Dawn)
    }

    /// Ravenkeeper wakes of the seats in `dead` that truly are Ravenkeepers.
    pub open spec fn raven_wakes(self, dead: Seq<SeatId>) -> Seq<NightStep>
        decreases dead.len(),
    {
        if dead.len() == 0 {
            seq![]
        } else {
            let front = self.raven_wakes(dead.drop_last());
            let seat = dead.last();
            if self.wakes_as(seat, Character::Ravenkeeper, true) {
                front.push(NightStep::Ravenkeeper { seat })
            } else {
                front
            }
        }
    }

    /// The wakes of one other-night slot.
    pub open spec fn other_slot_wakes(self, slot: OtherNightSlot) -> Seq<NightStep> {
        if slot == OtherNightSlot::Ravenkeeper {
            self.raven_wakes(self.deaths_tonight)
        } else if slot == OtherNightSlot::Undertaker && self.executed_today is None {
            seq![]
        } else {
            match self.wake_seat(slot.wakes(), slot.by_true_character()) {
                Some(seat) => seq![other_step_of(slot, seat)],
                None => seq![],
            }
        }
    }

    /// The wakes of other-night slots, in sheet order.
    pub open spec fn other_wakes(self, slots: Seq<OtherNightSlot>) -> Seq<NightStep>
        decreases slots.len(),
    {
        if slots.len() == 0 {
            seq![]
        } else {
            self.other_wakes(slots.drop_last()) + self.other_slot_wakes(slots.last())
        }
    }

    /// Any later night: the wakes of the sheet, dawn.
    pub open spec fn other_night_steps(self) -> Seq<NightStep> {
        self.other_wakes(other_night_sheet()).push(NightStep::Dawn)
    }
}

/// Build the ordered first-night step list for the current grimoire.
#[verifier::loop_isolation(false)]
pub fn build_first_night_queue(game: &Game) -> (q: Vec<NightStep>)
    ensures
        q@ == game@.first_night_steps(),
{
    let mut q: Vec<NightStep> = Vec::new();
    q.push(NightStep::SetupMarkers);
    if game.seats.len() >= 7 {
        if has_living_minion(game) {
            q.push(NightStep::MinionBriefing);
        }
        q.push(NightStep::DemonBriefing);
    }
    let ghost opening = seq![NightStep::SetupMarkers] + game@.evil_briefings();
    assert(q@ =~= opening);
    let slots = first_night_order();
    let mut i: usize = 0;
    assert(opening + game@.first_wakes(slots@.take(0)) =~= opening);
    while i < slots.len()
        invariant
            i <= slots.len(),
            q@ == opening + game@.first_wakes(slots@.take(i as int)),
        decreases slots.len() - i,
    {
        let slot = slots[i];
        assert(slots@.take(i + 1).drop_last() =~= slots@.take(i as int));
        if let Some(seat) = find_wake_seat(game, slot.character(), slot.uses_true_character()) {
            q.push(first_night_step(slot, seat));
        }
        i += 1;
        assert(q@ =~= opening + game@.first_wakes(slots@.take(i as int)));
    }
    assert(slots@.take(i as int) =~= slots@);
    q.push(NightStep::Dawn);
    q
}

/// Build the ordered other-night step list (no first-night setup/briefings; includes Imp kill).
///
/// Ravenkeeper is included only when a seat in `deaths_tonight` truly is the Ravenkeeper
/// (typically filled after the demon kill resolves). Undertaker is included when the
/// seat is alive **and** there was an execution today (`executed_today`).
#[verifier::loop_isolation(false)]
pub fn build_other_night_queue(game: &Game) -> (q: Vec<NightStep>)
    ensures
        q@ == game@.other_night_steps(),
{
    let mut q: Vec<NightStep> = Vec::new();
    let slots = other_night_order();
    let mut i: usize = 0;
    while i < slots.len()
        invariant
            i <= slots.len(),
            q@ == game@.other_wakes(slots@.take(i as int)),
        decreases slots.len() - i,
    {
        let slot = slots[i];
        let ghost before = q@;
        match slot {
            OtherNightSlot::Ravenkeeper => {
                // True Ravenkeeper who died to the demon (Drunk face is not true RK).
                let mut k: usize = 0;
                assert(before + game@.raven_wakes(game@.deaths_tonight.take(0)) =~= before);
                while k < game.deaths_tonight.len()
                    invariant
                        k <= game.deaths_tonight.len(),
                        q@ == before + game@.raven_wakes(game@.deaths_tonight.take(k as int)),
                    decreases game.deaths_tonight.len() - k,
                {
                    let dead = game.deaths_tonight[k];
                    assert(game@.deaths_tonight.take(k + 1).drop_last()
                        =~= game@.deaths_tonight.take(k as int));
                    if seat_matches_wake(game, dead, Character::Ravenkeeper, true) {
                        q.push(NightStep::Ravenkeeper { seat: dead });
                    }
                    k += 1;
                    assert(q@ =~= before + game@.raven_wakes(game@.deaths_tonight.take(k as int)));
                }
                assert(game@.deaths_tonight.take(k as int) =~= game@.deaths_tonight);
            },
            OtherNightSlot::Undertaker => {
                if game.executed_today.is_some() {
                    if let Some(seat) = find_wake_seat(game, Character::Undertaker, false) {
                        q.push(NightStep::Undertaker { seat });
                    }
                }
            },
            OtherNightSlot::Imp => {
                if let Some(seat) = find_wake_seat(game, Character::Imp, true) {
                    q.push(NightStep::DemonKill { seat });
                }
            },
            other => {
                let role = other.character();
                if let Some(seat) = find_wake_seat(game, role, other.uses_true_character()) {
                    q.push(other_night_step(other, seat));
                }
            },
        }
        assert(q@ =~= before + game@.other_slot_wakes(slot));
        assert(slots@.take(i + 1).drop_last() =~= slots@.take(i as int));
        i += 1;
    }
    assert(slots@.take(i as int) =~= slots@);
    q.push(NightStep::Dawn);
    q
}

fn first_night_step(slot: FirstNightSlot, seat: SeatId) -> (s: NightStep)
    ensures
        s == first_step_of(slot, seat),
{
    match slot {
        FirstNightSlot::Poisoner => NightStep::Poisoner { seat },
        FirstNightSlot::Spy => NightStep::Spy { seat },
        FirstNightSlot::Washerwoman => NightStep::Washerwoman { seat },
        FirstNightSlot::Librarian => NightStep::Librarian { seat },
        FirstNightSlot::Investigator => NightStep::Investigator { seat },
        FirstNightSlot::Chef => NightStep::Chef { seat },
        FirstNightSlot::Empath => NightStep::Empath { seat },
        FirstNightSlot::FortuneTeller => NightStep::FortuneTeller { seat },
        FirstNightSlot::Butler => NightStep::Butler { seat },
    }
}

fn other_night_step(slot: OtherNightSlot, seat: SeatId) -> (s: NightStep)
    ensures
        s == other_step_of(slot, seat),
{
    match slot {
        OtherNightSlot::Poisoner => NightStep::Poisoner { seat },
        OtherNightSlot::Monk => NightStep::Monk { seat },
        OtherNightSlot::Spy => NightStep::Spy { seat },
        OtherNightSlot::Imp => NightStep::DemonKill { seat },
        OtherNightSlot::Ravenkeeper => NightStep::Ravenkeeper { seat },
        OtherNightSlot::Undertaker => NightStep::Undertaker { seat },
        OtherNightSlot::Empath => NightStep::Empath { seat },
        OtherNightSlot::FortuneTeller => NightStep::FortuneTeller { seat },
        OtherNightSlot::Butler => NightStep::Butler { seat },
    }
}

fn is_type(s: &Seat, ty: CharacterType) -> (b: bool)
    ensures
        b == truly(*s, ty),
{
    match s.true_character {
        Some(c) => c.character_type() == ty,
        None => false,
    }
}

#[verifier::loop_isolation(false)]
fn has_living_minion(game: &Game) -> (b: bool)
    ensures
        b == (first_where(game@.seats, |s: Seat| s.alive && truly(s, CharacterType::Minion))
            is Some),
{
    let ghost wanted = |s: Seat| s.alive && truly(s, CharacterType::Minion);
    proof {
        first_where_is_first(game@.seats, wanted);
    }
    let mut i: usize = 0;
    while i < game.seats.len()
        invariant
            i <= game.seats.len(),
            forall|k: int| 0 <= k < i ==> !wanted(#[trigger] game@.seats[k]),
        decreases game.seats.len() - i,
    {
        let s = &game.seats[i];
        if s.alive && is_type(s, CharacterType::Minion) {
            assert(wanted(game@.seats[i as int]));
            return true;
        }
        i += 1;
    }
    false
}

/// First living seat matching role via true character or player-facing character.
#[verifier::loop_isolation(false)]
fn find_wake_seat(game: &Game, role: Character, use_true: bool) -> (r: Option<SeatId>)
    ensures
        r == game@.wake_seat(role, use_true),
{
    let ghost wanted = |s: Seat| s.alive && game@.wakes_as(s.id, role, use_true);
    proof {
        first_where_is_first(game@.seats, wanted);
    }
    let mut i: usize = 0;
    while i < game.seats.len()
        invariant
            i <= game.seats.len(),
            forall|k: int| 0 <= k < i ==> !wanted(#[trigger] game@.seats[k]),
        decreases game.seats.len() - i,
    {
        let s = &game.seats[i];
        if s.alive && seat_matches_wake(game, s.id, role, use_true) {
            assert(wanted(game@.seats[i as int]));
            return Some(s.id);
        }
        i += 1;
    }
    None
}

fn seat_matches_wake(game: &Game, seat: SeatId, role: Character, use_true: bool) -> (b: bool)
    ensures
        b == game@.wakes_as(seat, role, use_true),
{
    match find_seat(&game.seats, seat) {
        Some(i) => {
            if use_true {
                game.seats[i].true_character == Some(role)
            } else {
                game.player_facing_character(seat) == Some(role)
            }
        },
        None => false,
    }
}

// ---------------------------------------------------------------------------
// Night machine
// ---------------------------------------------------------------------------

/// Name of a step for players and hosts.
pub open spec fn label_of_step(step: NightStep) -> Seq<char> {
    match step {
        NightStep::SetupMarkers => "Setup"@,
        NightStep::MinionBriefing => "Minion briefing"@,
        NightStep::DemonBriefing => "Demon briefing"@,
        NightStep::Poisoner { .. } => "Poisoner"@,
        NightStep::Spy { .. } => "Spy"@,
        NightStep::Washerwoman { .. } => "Washerwoman"@,
        NightStep::Librarian { .. } => "Librarian"@,
        NightStep::Investigator { .. } => "Investigator"@,
        NightStep::Chef { .. } => "Chef"@,
        NightStep::Empath { .. } => "Empath"@,
        NightStep::FortuneTeller { .. } => "Fortune Teller"@,
        NightStep::Butler { .. } => "Butler"@,
        NightStep::Monk { .. } => "Monk"@,
        NightStep::DemonKill { .. } => "Demon"@,
        NightStep::Ravenkeeper { .. } => "Ravenkeeper"@,
        NightStep::Undertaker { .. } => "Undertaker"@,
        NightStep::Dawn => "Dawn"@,
    }
}

/// The wake that a choice step opens; other steps open none.
pub open spec fn wake_of(step: NightStep) -> Option<PendingWakeView> {
    match step {
        NightStep::Poisoner { seat } => Some(
            PendingWakeView {
                step,
                seat,
                schema: ChoiceSchema::PickOne {
                    any_seat: true,
                    living_only: false,
                    exclude_self: false,
                },
                prompt: "Choose a player to poison tonight."@,
            },
        ),
        NightStep::FortuneTeller { seat } => Some(
            PendingWakeView {
                step,
                seat,
                schema: ChoiceSchema::PickTwo { any_seat: true },
                prompt: "Choose two players. You learn if either is the Demon."@,
            },
        ),
        NightStep::Butler { seat } => Some(
            PendingWakeView {
                step,
                seat,
                schema: ChoiceSchema::PickOne {
                    any_seat: true,
                    living_only: false,
                    exclude_self: true,
                },
                prompt: "Choose a master for tomorrow."@,
            },
        ),
        NightStep::Monk { seat } => Some(
            PendingWakeView {
                step,
                seat,
                schema: ChoiceSchema::PickOne {
                    any_seat: false,
                    living_only: true,
                    exclude_self: true,
                },
                prompt: "Choose a living player to protect tonight."@,
            },
        ),
        NightStep::DemonKill { seat } => Some(
            PendingWakeView {
                step,
                seat,
                schema: ChoiceSchema::PickOne {
                    any_seat: true,
                    living_only: false,
                    exclude_self: false,
                },
                prompt: "Choose a player to kill tonight."@,
            },
        ),
        NightStep::Ravenkeeper { seat } => Some(
            PendingWakeView {
                step,
                seat,
                schema: ChoiceSchema::PickOne {
                    any_seat: true,
                    living_only: false,
                    exclude_self: false,
                },
                prompt: "Choose a player. You learn their character."@,
            },
        ),
        _ => None,
    }
}

/// `Name (seat n)` for every seat of this kind except `but`, in circle order.
pub open spec fn badges(seats: Seq<Seat>, ty: CharacterType, but: Option<SeatId>) -> Seq<Seq<char>>
    decreases seats.len(),
{
    if seats.len() == 0 {
        seq![]
    } else {
        let front = badges(seats.drop_last(), ty, but);
        let s = seats.last();
        if truly(s, ty) && but != Some(s.id) {
            front.push(s.display_name@ + " (seat "@ + dec(s.id.0 as nat) + ")"@)
        } else {
            front
        }
    }
}

/// The parts joined by commas, or a word for none.
pub open spec fn listed(parts: Seq<Seq<char>>, none: Seq<char>) -> Seq<char> {
    if parts.len() == 0 { none } else { joined(parts, ", "@) }
}

/// What the Minion at `seat` is told: the Demon and the other Minions.
pub open spec fn minion_briefing(seats: Seq<Seat>, seat: SeatId) -> Seq<char> {
    "The Demon is "@ + listed(
        badges(seats, CharacterType::Demon, None),
        "There is no Demon (error)."@,
    ) + ". Fellow Minions: "@ + listed(
        badges(seats, CharacterType::Minion, Some(seat)),
        "none"@,
    ) + "."@
}

/// The names of characters.
pub open spec fn names_of(cs: Seq<Character>) -> Seq<Seq<char>> {
    cs.map_values(|c: Character| name_of(c))
}

/// What the Demon is told: its Minions and the bluffs.
pub open spec fn demon_briefing(seats: Seq<Seat>, bluffs: Seq<Character>) -> Seq<char> {
    "Your Minions: "@ + listed(badges(seats, CharacterType::Minion, None), "none"@)
        + ". Not-in-play bluffs: "@ + listed(names_of(bluffs), "none"@) + "."@
}

/// The inboxes once every Minion among `upto` was briefed about the whole table.
pub open spec fn minions_briefed(
    boxes: PrivateInboxesView,
    table: Seq<Seat>,
    upto: Seq<Seat>,
) -> PrivateInboxesView
    decreases upto.len(),
{
    if upto.len() == 0 {
        boxes
    } else {
        let front = minions_briefed(boxes, table, upto.drop_last());
        if truly(upto.last(), CharacterType::Minion) {
            front.push(
                upto.last().id,
                PrivateMessageView::EvilBriefing { text: minion_briefing(table, upto.last().id) },
            )
        } else {
            front
        }
    }
}

/// The inboxes once every Demon among `upto` got the text.
pub open spec fn demons_told(
    boxes: PrivateInboxesView,
    text: Seq<char>,
    upto: Seq<Seat>,
) -> PrivateInboxesView
    decreases upto.len(),
{
    if upto.len() == 0 {
        boxes
    } else {
        let front = demons_told(boxes, text, upto.drop_last());
        if truly(upto.last(), CharacterType::Demon) {
            front.push(upto.last().id, PrivateMessageView::EvilBriefing { text })
        } else {
            front
        }
    }
}

/// Display names of the seats that died and are at the table.
pub open spec fn names_of_seats(seats: Seq<Seat>, ids: Seq<SeatId>) -> Seq<Seq<char>>
    decreases ids.len(),
{
    if ids.len() == 0 {
        seq![]
    } else {
        let front = names_of_seats(seats, ids.drop_last());
        match seat_of(seats, ids.last()) {
            Some(s) => front.push(s.display_name@),
            None => front,
        }
    }
}

/// The queue position after `cursor` (it stops at `usize::MAX`).
pub open spec fn next_cursor(cursor: usize) -> usize {
    if cursor < usize::MAX { (cursor + 1) as usize } else { cursor }
}

impl GameView {
    /// The night goes on to the next step.
    pub open spec fn advanced(self) -> GameView {
        GameView {
            night_cursor: next_cursor(self.night_cursor),
            phase: self.phase.at_cursor(next_cursor(self.night_cursor)),
            ..self
        }
    }

    /// The mail that a step without a choice sends out.
    pub open spec fn step_mail(self, step: NightStep) -> PrivateInboxesView {
        match step {
            NightStep::SetupMarkers | NightStep::Dawn => self.private_inboxes,
            NightStep::MinionBriefing => minions_briefed(
                self.private_inboxes,
                self.seats,
                self.seats,
            ),
            NightStep::DemonBriefing => demons_told(
                self.private_inboxes,
                demon_briefing(self.seats, self.demon_bluffs),
                self.seats,
            ),
            NightStep::Spy { seat } | NightStep::Washerwoman { seat }
            | NightStep::Librarian { seat } | NightStep::Investigator { seat }
            | NightStep::Chef { seat } | NightStep::Empath { seat }
            | NightStep::Undertaker { seat } => self.private_inboxes.push(
                seat,
                PrivateMessageView::NightResult {
                    text: "Night information for "@ + label_of_step(step) + " (stub)."@,
                },
            ),
            _ => self.private_inboxes,
        }
    }

    /// The night waits for the choice of a wake.
    pub open spec fn waiting(self, wake: PendingWakeView) -> GameView {
        GameView { pending_night: Some(wake), ..self }.whisper(
            wake.seat,
            PrivateMessageView::NightPrompt { text: wake.prompt },
        )
    }

    /// The day that follows this night.
    pub open spec fn coming_day(self) -> u32 {
        match self.phase {
            Phase::Night { night, .. } => night,
            _ => 1,
        }
    }

    /// Dawn: the dead of the night are announced and a new day of discussion begins with fresh
    /// nomination, vote, execution and directed-speech records.
    #[verifier::opaque]
    pub open spec fn dawned(self) -> GameView {
        let bare = self.unshielded();
        let told = if self.deaths_tonight.len() == 0 {
            bare.announce("Dawn. Nobody died."@)
        } else {
            bare.announce(
                "Dawn. Died in the night: "@ + joined(
                    names_of_seats(self.seats, self.deaths_tonight),
                    ", "@,
                ) + "."@,
            )
        };
        let day = self.coming_day();
        GameView {
            phase: Phase::Day { day, stage: DayStage::Discussion },
            deaths_tonight: seq![],
            executed_today: None,
            night_queue: seq![],
            night_cursor: 0,
            pending_night: None,
            ..told.publish(
                PublicEventView::DiedInNight { seats: self.deaths_tonight },
            ).with_day_votes_reset().with_directed_say_reset()
        }.publish(
            PublicEventView::PhaseChanged {
                summary: "Day "@ + dec(day as nat) + " — Discussion"@,
            },
        )
    }

    /// The night machine: steps without a choice run one after the other until a choice is
    /// pending, dawn has broken, or there is nothing to run.
    pub open spec fn ticked(self) -> GameView
        decreases self.night_queue.len() - self.night_cursor,
    {
        if self.pending_night is Some || !self.phase.night_falls() || self.night_cursor
            >= self.night_queue.len() || self.night_cursor == usize::MAX {
            self
        } else {
            let step = self.night_queue[self.night_cursor as int];
            match wake_of(step) {
                Some(wake) => self.waiting(wake),
                None => if step == NightStep::Dawn {
                    self.dawned()
                } else {
                    GameView { private_inboxes: self.step_mail(step), ..self }.advanced().ticked()
                },
            }
        }
    }

    /// Whether a choice has the shape and the targets that the wake asks for.
    pub open spec fn payload_fits(
        self,
        pending: PendingWakeView,
        payload: NightActionPayload,
    ) -> Result<
        (),
        GameError,
    > {
        match (pending.schema, payload) {
            (ChoiceSchema::Ack, NightActionPayload::Ack) => Ok(()),
            (
                ChoiceSchema::PickOne { living_only, exclude_self, .. },
                NightActionPayload::PickOne { target },
            ) => match seat_of(self.seats, target) {
                None => Err(GameError::NoSuchSeat),
                Some(s) => if living_only && !s.alive {
                    Err(GameError::IllegalAction("target must be living"))
                } else if exclude_self && target == pending.seat {
                    Err(GameError::IllegalAction("cannot target self"))
                } else {
                    Ok(())
                },
            },
            (ChoiceSchema::PickTwo { .. }, NightActionPayload::PickTwo { a, b }) => if seat_of(
                self.seats,
                a,
            ) is None || seat_of(self.seats, b) is None {
                Err(GameError::NoSuchSeat)
            } else {
                Ok(())
            },
            _ => Err(GameError::WrongPayload),
        }
    }

    /// The ability at this seat does not work; an unknown seat is taken for working.
    pub open spec fn wake_off(self, seat: SeatId) -> bool {
        seat_of(self.seats, seat) matches Some(s) && s.disabled()
    }

    /// What a fitting choice does: the Poisoner moves the poison, the Butler takes a master, the
    /// Monk protects; every other choice is only recorded.
    pub open spec fn choice_applied(
        self,
        pending: PendingWakeView,
        payload: NightActionPayload,
    ) -> GameView {
        match (pending.step, payload) {
            (NightStep::Poisoner { .. }, NightActionPayload::PickOne { target }) => if self.wake_off(
                pending.seat,
            ) {
                self.unpoisoned()
            } else {
                self.unpoisoned().poisoned(target)
            },
            (NightStep::Butler { .. }, NightActionPayload::PickOne { target }) => self.butler_serves(
                pending.seat,
                target,
            ),
            (NightStep::Monk { .. }, NightActionPayload::PickOne { target }) => if self.wake_off(
                pending.seat,
            ) {
                self
            } else {
                self.monk_shielded(target)
            },
            _ => self,
        }
    }

    /// A night choice of a seat: granted only to the pending wake of that seat at night and in
    /// the shape it asks for; then the night goes on.
    pub open spec fn night_acted(self, seat: SeatId, payload: NightActionPayload) -> Result<
        GameView,
        GameError,
    > {
        match self.pending_night {
            None => Err(GameError::NotYourWake),
            Some(pending) => if pending.seat != seat {
                Err(GameError::NotYourWake)
            } else if !self.phase.night_falls() {
                Err(GameError::WrongPhase)
            } else {
                match self.payload_fits(pending, payload) {
                    Err(e) => Err(e),
                    Ok(_) => Ok(
                        GameView {
                            pending_night: None,
                            ..self.choice_applied(pending, payload)
                        }.advanced().ticked(),
                    ),
                }
            },
        }
    }

    /// The target that a skipped wake takes: the first seat that fits, else the first seat.
    pub open spec fn default_target(
        self,
        pending: PendingWakeView,
        living_only: bool,
        exclude_self: bool,
    ) -> Option<
        SeatId,
    > {
        match first_where(
            self.seats,
            |s: Seat| !(living_only && !s.alive) && !(exclude_self && s.id == pending.seat),
        ) {
            Some(i) => Some(self.seats[i].id),
            None => if self.seats.len() > 0 { Some(self.seats[0].id) } else { None },
        }
    }

    /// The choice that a skipped wake makes.
    pub open spec fn default_payload(self, pending: PendingWakeView) -> Result<
        NightActionPayload,
        GameError,
    > {
        match pending.schema {
            ChoiceSchema::Ack => Ok(NightActionPayload::Ack),
            ChoiceSchema::PickOne { living_only, exclude_self, .. } => match self.default_target(
                pending,
                living_only,
                exclude_self,
            ) {
                Some(target) => Ok(NightActionPayload::PickOne { target }),
                None => Err(GameError::IllegalAction("no legal default target")),
            },
            ChoiceSchema::PickTwo { .. } => if self.seats.len() == 0 {
                Err(GameError::IllegalAction("no seats"))
            } else {
                let a = self.seats[0].id;
                let b = if self.seats.len() > 1 { self.seats[1].id } else { a };
                Ok(NightActionPayload::PickTwo { a, b })
            },
        }
    }

    /// A later night begins and runs to its first choice.
    #[verifier::opaque]
    pub open spec fn night_entered(self, night: u32) -> GameView {
        let fallen = GameView { deaths_tonight: seq![], pending_night: None, ..self };
        GameView {
            phase: Phase::Night { night, cursor: 0 },
            night_queue: fallen.other_night_steps(),
            night_cursor: 0,
            ..fallen
        }.announce("Night falls. Eyes closed."@).ticked()
    }
}

#[derive(Clone, Copy, PartialEq, Eq, Structural)]
enum StepOutcome {
    Advanced,
    Waiting,
    DawnDone,
}

fn step_label(step: NightStep) -> (s: &'static str)
    ensures
        s@ == label_of_step(step),
{
    match step {
        NightStep::SetupMarkers => "Setup",
        NightStep::MinionBriefing => "Minion briefing",
        NightStep::DemonBriefing => "Demon briefing",
        NightStep::Poisoner { .. } => "Poisoner",
        NightStep::Spy { .. } => "Spy",
        NightStep::Washerwoman { .. } => "Washerwoman",
        NightStep::Librarian { .. } => "Librarian",
        NightStep::Investigator { .. } => "Investigator",
        NightStep::Chef { .. } => "Chef",
        NightStep::Empath { .. } => "Empath",
        NightStep::FortuneTeller { .. } => "Fortune Teller",
        NightStep::Butler { .. } => "Butler",
        NightStep::Monk { .. } => "Monk",
        NightStep::DemonKill { .. } => "Demon",
        NightStep::Ravenkeeper { .. } => "Ravenkeeper",
        NightStep::Undertaker { .. } => "Undertaker",
        NightStep::Dawn => "Dawn",
    }
}

/// `Name (seat n)` for every seat of this kind except `but`, in circle order.
#[verifier::loop_isolation(false)]
fn list_badges(seats: &Vec<Seat>, ty: CharacterType, but: Option<SeatId>) -> (v: Vec<String>)
    ensures
        texts(v@) == badges(seats@, ty, but),
{
    let mut v: Vec<String> = Vec::new();
    let mut i: usize = 0;
    assert(texts(v@) =~= badges(seats@.take(0), ty, but));
    while i < seats.len()
        invariant
            i <= seats.len(),
            texts(v@) == badges(seats@.take(i as int), ty, but),
        decreases seats.len() - i,
    {
        let s = &seats[i];
        let ghost before = v@;
        assert(seats@.take(i + 1).drop_last() =~= seats@.take(i as int));
        if is_type(s, ty) && but != Some(s.id) {
            let mut line = s.display_name.clone();
            line.append(" (seat ");
            push_dec(&mut line, s.id.0 as u64);
            line.append(")");
            v.push(line);
            assert(texts(v@) =~= texts(before).push(line@));
        }
        i += 1;
    }
    assert(seats@.take(i as int) =~= seats@);
    v
}

fn list_or(parts: &Vec<String>, none: &str) -> (s: String)
    ensures
        s@ == listed(texts(parts@), none@),
{
    if parts.len() == 0 { none.to_owned() } else { join(parts, ", ") }
}

#[verifier::loop_isolation(false)]
fn character_names(cs: &Vec<Character>) -> (v: Vec<String>)
    ensures
        texts(v@) == names_of(cs@),
{
    let mut v: Vec<String> = Vec::new();
    let mut i: usize = 0;
    while i < cs.len()
        invariant
            i <= cs.len(),
            v@.len() == i,
            forall|k: int| 0 <= k < i ==> (#[trigger] v@[k])@ == name_of(cs@[k]),
        decreases cs.len() - i,
    {
        v.push(cs[i].display_name().to_owned());
        i += 1;
    }
    assert(texts(v@) =~= names_of(cs@));
    v
}

impl Game {
    /// Process night queue from the cursor until a player choice is pending or dawn completes.
    pub fn night_tick(&mut self)
        ensures
            final(self)@ == old(self)@.ticked(),
    {
        loop
            invariant
                self@.ticked() == old(self)@.ticked(),
            decreases self.night_queue.len() - self.night_cursor,
        {
            if self.pending_night.is_some() {
                return;
            }
            if !self.phase.is_night() {
                return;
            }
            if self.night_cursor >= self.night_queue.len() {
                return;
            }
            let step = self.night_queue[self.night_cursor];
            match self.begin_step(step) {
                StepOutcome::Advanced => {},
                StepOutcome::Waiting => return,
                StepOutcome::DawnDone => return,
            }
        }
    }

    /// Player submits a night choice for the current pending wake.
    pub fn night_action(&mut self, token: &Token, payload: NightActionPayload) -> (r: Result<
        (),
        GameError,
    >)
        ensures
            settles(old(self)@.night_action_by(token@, payload), old(self)@, final(self)@, r),
    {
        match self.tokens.resolve(token) {
            None => Err(GameError::Unauthorized),
            Some(Actor::Host) => Err(GameError::BadRequest("host cannot night_action")),
            Some(Actor::Player { seat }) => self.apply_night_action(seat, payload),
        }
    }

    /// Apply a choice of `seat` to the pending wake and go on with the night.
    pub fn apply_night_action(&mut self, seat: SeatId, payload: NightActionPayload) -> (r: Result<
        (),
        GameError,
    >)
        ensures
            settles(old(self)@.night_acted(seat, payload), old(self)@, final(self)@, r),
    {
        let pending = match &self.pending_night {
            Some(p) => p.clone(),
            None => return Err(GameError::NotYourWake),
        };
        if pending.seat != seat {
            return Err(GameError::NotYourWake);
        }
        if !self.phase.is_night() {
            return Err(GameError::WrongPhase);
        }
        if let Err(e) = self.validate_payload(&pending, &payload) {
            return Err(e);
        }
        self.resolve_pending(&pending, &payload);
        self.pending_night = None;
        self.advance_cursor();
        self.night_tick();
        Ok(())
    }

    fn begin_step(&mut self, step: NightStep) -> (r: StepOutcome)
        ensures
            match wake_of(step) {
                Some(wake) => r == StepOutcome::Waiting && final(self)@ == old(self)@.waiting(wake),
                None => if step == NightStep::Dawn {
                    r == StepOutcome::DawnDone && final(self)@ == old(self)@.dawned()
                } else {
                    r == StepOutcome::Advanced && final(self)@ == (GameView {
                        private_inboxes: old(self)@.step_mail(step),
                        ..old(self)@
                    }).advanced()
                },
            },
    {
        match step {
            NightStep::SetupMarkers => {
                self.advance_cursor();
                StepOutcome::Advanced
            },
            NightStep::MinionBriefing => {
                self.push_minion_briefings();
                self.advance_cursor();
                StepOutcome::Advanced
            },
            NightStep::DemonBriefing => {
                self.push_demon_briefing();
                self.advance_cursor();
                StepOutcome::Advanced
            },
            NightStep::Dawn => {
                self.resolve_dawn();
                StepOutcome::DawnDone
            },
            NightStep::Spy { seat } | NightStep::Washerwoman { seat }
            | NightStep::Librarian { seat } | NightStep::Investigator { seat }
            | NightStep::Chef { seat } | NightStep::Empath { seat }
            | NightStep::Undertaker { seat } => {
                let mut text = "Night information for ".to_owned();
                text.append(step_label(step));
                text.append(" (stub).");
                self.private_inboxes.push(seat, PrivateMessage::NightResult { text });
                self.advance_cursor();
                StepOutcome::Advanced
            },
            // Choice-required wakes: set pending and stop.
            NightStep::Poisoner { seat } => {
                self.set_pending(
                    step,
                    seat,
                    ChoiceSchema::PickOne {
                        any_seat: true,
                        living_only: false,
                        exclude_self: false,
                    },
                    "Choose a player to poison tonight.",
                );
                StepOutcome::Waiting
            },
            NightStep::FortuneTeller { seat } => {
                self.set_pending(
                    step,
                    seat,
                    ChoiceSchema::PickTwo { any_seat: true },
                    "Choose two players. You learn if either is the Demon.",
                );
                StepOutcome::Waiting
            },
            NightStep::Butler { seat } => {
                self.set_pending(
                    step,
                    seat,
                    ChoiceSchema::PickOne {
                        any_seat: true,
                        living_only: false,
                        exclude_self: true,
                    },
                    "Choose a master for tomorrow.",
                );
                StepOutcome::Waiting
            },
            NightStep::Monk { seat } => {
                self.set_pending(
                    step,
                    seat,
                    ChoiceSchema::PickOne {
                        any_seat: false,
                        living_only: true,
                        exclude_self: true,
                    },
                    "Choose a living player to protect tonight.",
                );
                StepOutcome::Waiting
            },
            NightStep::DemonKill { seat } => {
                self.set_pending(
                    step,
                    seat,
                    ChoiceSchema::PickOne {
                        any_seat: true,
                        living_only: false,
                        exclude_self: false,
                    },
                    "Choose a player to kill tonight.",
                );
                StepOutcome::Waiting
            },
            NightStep::Ravenkeeper { seat } => {
                self.set_pending(
                    step,
                    seat,
                    ChoiceSchema::PickOne {
                        any_seat: true,
                        living_only: false,
                        exclude_self: false,
                    },
                    "Choose a player. You learn their character.",
                );
                StepOutcome::Waiting
            },
        }
    }

    fn set_pending(&mut self, step: NightStep, seat: SeatId, schema: ChoiceSchema, prompt: &str)
        ensures
            final(self)@ == old(self)@.waiting(
                PendingWakeView { step, seat, schema, prompt: prompt@ },
            ),
    {
        self.private_inboxes.push(seat, PrivateMessage::NightPrompt { text: prompt.to_owned() });
        self.pending_night = Some(PendingWake { step, seat, schema, prompt: prompt.to_owned() });
    }

    /// Move on to the next queue position.
    pub fn advance_cursor(&mut self)
        ensures
            final(self)@ == old(self)@.advanced(),
    {
        self.night_cursor = self.night_cursor.saturating_add(1);
        let cursor = self.night_cursor;
        self.phase = match self.phase {
            Phase::FirstNight { .. } => Phase::FirstNight { cursor },
            Phase::Night { night, .. } => Phase::Night { night, cursor },
            other => other,
        };
    }

    #[verifier::loop_isolation(false)]
    fn push_minion_briefings(&mut self)
        ensures
            final(self)@ == (GameView {
                private_inboxes: minions_briefed(
                    old(self)@.private_inboxes,
                    old(self)@.seats,
                    old(self)@.seats,
                ),
                ..old(self)@
            }),
    {
        let demons = list_badges(&self.seats, CharacterType::Demon, None);
        let demon_text = list_or(&demons, "There is no Demon (error).");
        let ghost before = self@;
        let mut i: usize = 0;
        while i < self.seats.len()
            invariant
                i <= self.seats.len(),
                self@ == (GameView {
                    private_inboxes: minions_briefed(
                        before.private_inboxes,
                        before.seats,
                        before.seats.take(i as int),
                    ),
                    ..before
                }),
            decreases self.seats.len() - i,
        {
            assert(before.seats.take(i + 1).drop_last() =~= before.seats.take(i as int));
            if is_type(&self.seats[i], CharacterType::Minion) {
                let id = self.seats[i].id;
                let others = list_badges(&self.seats, CharacterType::Minion, Some(id));
                let mut text = "The Demon is ".to_owned();
                text.append(demon_text.as_str());
                text.append(". Fellow Minions: ");
                text.append(list_or(&others, "none").as_str());
                text.append(".");
                self.private_inboxes.push(id, PrivateMessage::EvilBriefing { text });
            }
            i += 1;
        }
        assert(before.seats.take(i as int) =~= before.seats);
    }

    #[verifier::loop_isolation(false)]
    fn push_demon_briefing(&mut self)
        ensures
            final(self)@ == (GameView {
                private_inboxes: demons_told(
                    old(self)@.private_inboxes,
                    demon_briefing(old(self)@.seats, old(self)@.demon_bluffs),
                    old(self)@.seats,
                ),
                ..old(self)@
            }),
    {
        let minions = list_badges(&self.seats, CharacterType::Minion, None);
        let bluffs = character_names(&self.demon_bluffs);
        let mut text = "Your Minions: ".to_owned();
        text.append(list_or(&minions, "none").as_str());
        text.append(". Not-in-play bluffs: ");
        text.append(list_or(&bluffs, "none").as_str());
        text.append(".");
        let ghost before = self@;
        let mut i: usize = 0;
        while i < self.seats.len()
            invariant
                i <= self.seats.len(),
                text@ == demon_briefing(before.seats, before.demon_bluffs),
                self@ == (GameView {
                    private_inboxes: demons_told(
                        before.private_inboxes,
                        text@,
                        before.seats.take(i as int),
                    ),
                    ..before
                }),
            decreases self.seats.len() - i,
        {
            assert(before.seats.take(i + 1).drop_last() =~= before.seats.take(i as int));
            if is_type(&self.seats[i], CharacterType::Demon) {
                let id = self.seats[i].id;
                self.private_inboxes.push(id, PrivateMessage::EvilBriefing { text: text.clone() });
            }
            i += 1;
        }
        assert(before.seats.take(i as int) =~= before.seats);
    }

    #[verifier::loop_isolation(false)]
    fn names_of_dead(&self) -> (v: Vec<String>)
        ensures
            texts(v@) == names_of_seats(self@.seats, self@.deaths_tonight),
    {
        let mut v: Vec<String> = Vec::new();
        let mut i: usize = 0;
        assert(texts(v@) =~= names_of_seats(self@.seats, self@.deaths_tonight.take(0)));
        while i < self.deaths_tonight.len()
            invariant
                i <= self.deaths_tonight.len(),
                texts(v@) == names_of_seats(self@.seats, self@.deaths_tonight.take(i as int)),
            decreases self.deaths_tonight.len() - i,
        {
            let ghost before = v@;
            assert(self@.deaths_tonight.take(i + 1).drop_last() =~= self@.deaths_tonight.take(
                i as int,
            ));
            if let Some(k) = find_seat(&self.seats, self.deaths_tonight[i]) {
                let name = self.seats[k].display_name.clone();
                v.push(name);
                assert(texts(v@) =~= texts(before).push(name@));
            }
            i += 1;
        }
        assert(self@.deaths_tonight.take(i as int) =~= self@.deaths_tonight);
        v
    }

    fn resolve_dawn(&mut self)
        ensures
            final(self)@ == old(self)@.dawned(),
    {
        reveal(GameView::dawned);
        let names = self.names_of_dead();
        clear_monk_protection(self);
        let deaths = copy_seats(&self.deaths_tonight);
        if deaths.len() == 0 {
            self.st_announce("Dawn. Nobody died.".to_owned());
        } else {
            let mut text = "Dawn. Died in the night: ".to_owned();
            text.append(join(&names, ", ").as_str());
            text.append(".");
            self.st_announce(text);
        }
        self.public_log.push(PublicEvent::DiedInNight { seats: deaths });
        reset_day_vote_state(self);
        self.reset_directed_say();
        self.deaths_tonight = Vec::new();
        self.executed_today = None;
        let day: u32 = match self.phase {
            Phase::Night { night, .. } => night,
            _ => 1,
        };
        self.phase = Phase::Day { day, stage: DayStage::Discussion };
        self.night_queue = Vec::new();
        self.night_cursor = 0;
        self.pending_night = None;
        let mut summary = numbered("Day ", day as u64);
        summary.append(" — Discussion");
        self.public_log.push(PublicEvent::PhaseChanged { summary });
    }

    fn validate_payload(&self, pending: &PendingWake, payload: &NightActionPayload) -> (r: Result<
        (),
        GameError,
    >)
        ensures
            r == self@.payload_fits(pending@, *payload),
    {
        match (pending.schema, payload) {
            (ChoiceSchema::Ack, NightActionPayload::Ack) => Ok(()),
            (
                ChoiceSchema::PickOne { any_seat: _, living_only, exclude_self },
                NightActionPayload::PickOne { target },
            ) => match find_seat(&self.seats, *target) {
                None => Err(GameError::NoSuchSeat),
                Some(i) => {
                    if living_only && !self.seats[i].alive {
                        return Err(GameError::IllegalAction("target must be living"));
                    }
                    if exclude_self && *target == pending.seat {
                        return Err(GameError::IllegalAction("cannot target self"));
                    }
                    Ok(())
                },
            },
            (ChoiceSchema::PickTwo { .. }, NightActionPayload::PickTwo { a, b }) => {
                if find_seat(&self.seats, *a).is_none() || find_seat(&self.seats, *b).is_none() {
                    return Err(GameError::NoSuchSeat);
                }
                Ok(())
            },
            _ => Err(GameError::WrongPayload),
        }
    }

    /// Poisoner, Butler and Monk act at once; other choices are only acknowledged.
    fn resolve_pending(&mut self, pending: &PendingWake, payload: &NightActionPayload)
        ensures
            final(self)@ == old(self)@.choice_applied(pending@, *payload),
    {
        let disabled = match find_seat(&self.seats, pending.seat) {
            Some(i) => self.seats[i].ability_disabled(),
            None => false,
        };
        match (pending.step, payload) {
            (NightStep::Poisoner { .. }, NightActionPayload::PickOne { target }) => {
                // Clear prior poison; apply if ability not disabled.
                clear_poisons(self);
                if !disabled {
                    apply_poison(self, *target);
                }
            },
            (NightStep::Butler { .. }, NightActionPayload::PickOne { target }) => {
                set_butler_master(self, pending.seat, *target);
            },
            (NightStep::Monk { .. }, NightActionPayload::PickOne { target }) => {
                if !disabled {
                    apply_monk_protect(self, *target);
                }
            },
            _ => {},
        }
    }

    #[verifier::loop_isolation(false)]
    fn pick_default_target(
        &self,
        pending: &PendingWake,
        living_only: bool,
        exclude_self: bool,
    ) -> (r:
        Option<SeatId>)
        ensures
            r == self@.default_target(pending@, living_only, exclude_self),
    {
        let ghost wanted = |s: Seat|
            !(living_only && !s.alive) && !(exclude_self && s.id == pending@.seat);
        proof {
            first_where_is_first(self@.seats, wanted);
        }
        let mut i: usize = 0;
        while i < self.seats.len()
            invariant
                i <= self.seats.len(),
                forall|k: int| 0 <= k < i ==> !wanted(#[trigger] self@.seats[k]),
            decreases self.seats.len() - i,
        {
            let s = &self.seats[i];
            if !(living_only && !s.alive) && !(exclude_self && s.id == pending.seat) {
                assert(wanted(self@.seats[i as int]));
                return Some(s.id);
            }
            i += 1;
        }
        if self.seats.len() > 0 { Some(self.seats[0].id) } else { None }
    }

    /// The documented default choice for a pending wake.
    pub fn default_payload_for(&self, pending: &PendingWake) -> (r: Result<
        NightActionPayload,
        GameError,
    >)
        ensures
            r == self@.default_payload(pending@),
    {
        match pending.schema {
            ChoiceSchema::Ack => Ok(NightActionPayload::Ack),
            ChoiceSchema::PickOne { any_seat: _, living_only, exclude_self } =>
                match self.pick_default_target(pending, living_only, exclude_self) {
                    Some(target) => Ok(NightActionPayload::PickOne { target }),
                    None => Err(GameError::IllegalAction("no legal default target")),
                },
            ChoiceSchema::PickTwo { .. } => {
                if self.seats.len() == 0 {
                    return Err(GameError::IllegalAction("no seats"));
                }
                let a = self.seats[0].id;
                let b = if self.seats.len() > 1 { self.seats[1].id } else { a };
                Ok(NightActionPayload::PickTwo { a, b })
            },
        }
    }

    /// Begin night `night` (2 and later) and run it to its first choice.
    pub fn enter_night(&mut self, night: u32)
        ensures
            final(self)@ == old(self)@.night_entered(night),
    {
        reveal(GameView::night_entered);
        self.deaths_tonight = Vec::new();
        self.pending_night = None;
        self.night_queue = build_other_night_queue(self);
        self.night_cursor = 0;
        self.phase = Phase::Night { night, cursor: 0 };
        self.st_announce("Night falls. Eyes closed.".to_owned());
        self.night_tick();
    }
}

impl GameView {
    /// A night choice presented with a token: only players may choose.
    pub open spec fn night_action_by(self, token: Seq<char>, payload: NightActionPayload) -> Result<
        GameView,
        GameError,
    > {
        match self.tokens.actor(token) {
            None => Err(GameError::Unauthorized),
            Some(Actor::Host) => Err(GameError::BadRequest("host cannot night_action")),
            Some(Actor::Player { seat }) => self.night_acted(seat, payload),
        }
    }
}

} // verus!
