//! Night info ability resolution, and false info when disabled.

use crate::comms::{PrivateMessage, PrivateMessageView};
use crate::error::GameError;
use crate::game::ability::register::{register_demon_for_ft, register_evil};
use crate::game::ability::NightEffect;
use crate::game::ids::SeatId;
use crate::game::night::NightActionPayload;
use crate::game::phase::NightStep;
use crate::game::seat::{find_seat, ids_where, seat_index, seat_of, with_seat, Seat};
use crate::game::st_policy::RegistrationMode;
use crate::game::state::{Game, GameView};
use crate::game::win::{first_where, first_where_is_first};
use crate::rng::Substream;
use crate::roles::data::name_of;
use crate::roles::{
    all_characters, all_minions, all_outsiders, all_townsfolk, full_pool, minions_pool,
    outsiders_pool, townsfolk_pool, type_of, Character, CharacterType,
};
use crate::text::{dec, join, joined, numbered, push_dec, texts};
use vstd::prelude::*;
use vstd::string::*;

verus! {

/// Two seats, one of which is said to be the character.
#[derive(Debug, Clone, Copy, PartialEq, Eq, Structural)]
pub struct PairInfo {
    pub character: Character,
    pub seat_a: SeatId,
    pub seat_b: SeatId,
}

/// `true` / `false`.
pub open spec fn bool_word(b: bool) -> Seq<char> {
    if b { "true"@ } else { "false"@ }
}

/// The seats whose true character is of this kind, with that character, in circle order.
pub open spec fn holders_of_type(seats: Seq<Seat>, ty: CharacterType) -> Seq<(SeatId, Character)>
    decreases seats.len(),
{
    if seats.len() == 0 {
        seq![]
    } else {
        let front = holders_of_type(seats.drop_last(), ty);
        match seats.last().true_character {
            Some(c) => if type_of(c) == ty { front.push((seats.last().id, c)) } else { front },
            None => front,
        }
    }
}

/// One line of a Grimoire.
pub open spec fn grimoire_line(
    name: Seq<char>,
    id: SeatId,
    alive: bool,
    character: Option<Character>,
    poisoned: bool,
    believed: Option<Character>,
) -> Seq<char> {
    let role = match character {
        Some(c) => name_of(c),
        None => "unknown"@,
    };
    let life = if alive { "alive"@ } else { "dead"@ };
    let line = "- "@ + name + " (seat "@ + dec(id.0 as nat) + "): "@ + life + ", "@ + role
        + ", poisoned="@ + bool_word(poisoned);
    match believed {
        Some(b) => line + ", believed="@ + name_of(b),
        None => line,
    }
}

/// The true Grimoire lines.
pub open spec fn true_lines(seats: Seq<Seat>) -> Seq<Seq<char>>
    decreases seats.len(),
{
    if seats.len() == 0 {
        seq!["Spy: Grimoire"@]
    } else {
        let s = seats.last();
        true_lines(seats.drop_last()).push(
            grimoire_line(
                s.display_name@,
                s.id,
                s.alive,
                s.true_character,
                s.poisoned,
                s.believed_character,
            ),
        )
    }
}

/// Scrambled Grimoire lines: name, life and poison are true, the characters are drawn.
pub open spec fn fake_lines(seats: Seq<Seat>, rng: Substream) -> (Seq<Seq<char>>, Substream)
    decreases seats.len(),
{
    if seats.len() == 0 {
        (seq!["Spy: Grimoire"@], rng)
    } else {
        let (front, r0) = fake_lines(seats.drop_last(), rng);
        let s = seats.last();
        let (k, r1) = r0.choice(full_pool().len());
        let (dressed, r2) = r1.coin(1, 5);
        let (f, r3) = r2.choice(full_pool().len());
        let believed = if dressed { Some(full_pool()[f]) } else { None };
        (
            front.push(
                grimoire_line(
                    s.display_name@,
                    s.id,
                    s.alive,
                    Some(full_pool()[k]),
                    s.poisoned,
                    believed,
                ),
            ),
            if dressed { r3 } else { r2 },
        )
    }
}

/// `step` seats on from `from` in a circle of `n`, clockwise or counter-clockwise
/// (`from < n`, `step <= n`).
pub open spec fn around(from: int, step: int, n: int, clockwise: bool) -> int {
    if clockwise {
        if from + step < n { from + step } else { from + step - n }
    } else {
        if step <= from { from - step } else { from - step + n }
    }
}

/// The first living seat met when walking the circle from `from`, starting `step` seats on.
pub open spec fn next_living(seats: Seq<Seat>, from: int, clockwise: bool, step: int) -> Option<int>
    decreases seats.len() + 1 - step,
{
    if step < 1 || step > seats.len() {
        None
    } else {
        let i = around(from, step, seats.len() as int, clockwise);
        if seats[i].alive { Some(i) } else { next_living(seats, from, clockwise, step + 1) }
    }
}

/// The numbers up to `max` without `truth`, ascending.
pub open spec fn lies_up_to(max: int, truth: int) -> Seq<u8>
    decreases max + 1,
{
    if max < 0 {
        seq![]
    } else {
        let front = lies_up_to(max - 1, truth);
        if max == truth { front } else { front.push(max as u8) }
    }
}

impl GameView {
    /// The ability at this seat does not work (nor does that of a seat that is not there).
    pub open spec fn seat_off(self, seat: SeatId) -> bool {
        match seat_of(self.seats, seat) {
            Some(s) => s.disabled(),
            None => true,
        }
    }

    /// A seat with its number, as players read it.
    pub open spec fn badge(self, seat: SeatId) -> Seq<char> {
        let name = match seat_of(self.seats, seat) {
            Some(s) => s.display_name@,
            None => "seat "@ + dec(seat.0 as nat),
        };
        name + " (seat "@ + dec(seat.0 as nat) + ")"@
    }

    /// The wording of pair information.
    pub open spec fn pair_text(self, ability: Seq<char>, info: PairInfo) -> Seq<char> {
        ability + ": one of "@ + self.badge(info.seat_a) + " and "@ + self.badge(info.seat_b)
            + " is the "@ + name_of(info.character) + "."@
    }

    /// Whether the Spy hides as a Townsfolk in pair information: the next coin of the stream, or as
    /// the registration mode says (a disabled Spy does not when the mode asks for it throughout).
    pub open spec fn spy_hides(self, spy: Seat, rng: Substream) -> (bool, Substream) {
        match self.registration_mode {
            RegistrationMode::Random => rng.coin(1, 2),
            RegistrationMode::AlwaysTrue => (false, rng),
            RegistrationMode::AlwaysMisreg => (!spy.disabled(), rng),
        }
    }

    /// Who may be the correct seat of pair information: the true holders, and for Townsfolk
    /// perhaps the Spy, showing as a Townsfolk.
    pub open spec fn pair_owners(self, ty: CharacterType, pool: Seq<Character>, rng: Substream) -> (
        Seq<(SeatId, Character)>,
        Substream,
    ) {
        let owners = holders_of_type(self.seats, ty);
        let spy = first_where(self.seats, |s: Seat| s.true_character == Some(Character::Spy));
        if ty != CharacterType::Townsfolk || spy is None {
            (owners, rng)
        } else {
            let spy_id = self.seats[spy->0].id;
            let (hides, r1) = self.spy_hides(self.seats[spy->0], rng);
            if !hides {
                (owners, r1)
            } else if owners.len() > 0 {
                let (k, r2) = r1.below(owners.len());
                (owners.push((spy_id, owners[k].1)), r2)
            } else if pool.len() > 0 {
                let (k, r2) = r1.choice(pool.len());
                (owners.push((spy_id, pool[k])), r2)
            } else {
                (owners.push((spy_id, Character::Soldier)), r1)
            }
        }
    }

    /// True pair information: a drawn owner and a drawn other seat in drawn order.
    pub open spec fn true_pair(self, ty: CharacterType, pool: Seq<Character>, rng: Substream) -> (
        Option<PairInfo>,
        Substream,
    ) {
        let (owners, r1) = self.pair_owners(ty, pool, rng);
        if owners.len() == 0 {
            (None, r1)
        } else {
            let (k, r2) = r1.below(owners.len());
            let (correct, character) = owners[k];
            let others = ids_where(self.seats, |s: Seat| s.id != correct);
            if others.len() == 0 {
                (None, r2)
            } else {
                let (w, r3) = r2.below(others.len());
                let wrong = others[w];
                let (first, r4) = r3.coin(1, 2);
                let info = if first {
                    PairInfo { character, seat_a: correct, seat_b: wrong }
                } else {
                    PairInfo { character, seat_a: wrong, seat_b: correct }
                };
                (Some(info), r4)
            }
        }
    }

    /// False pair information: two drawn seats and a drawn character.
    pub open spec fn false_pair(self, pool: Seq<Character>, rng: Substream) -> Option<PairInfo> {
        if self.seats.len() < 2 || pool.len() == 0 {
            None
        } else {
            let (order, r1) = rng.order(self.seats.len());
            let (k, r2) = r1.choice(pool.len());
            Some(
                PairInfo {
                    character: pool[k],
                    seat_a: self.seats[order[0] as int].id,
                    seat_b: self.seats[order[1] as int].id,
                },
            )
        }
    }

    /// What a pair role learns, or `None` when nothing can be said at a table this small.
    pub open spec fn pair_result(
        self,
        seat: SeatId,
        ability: Seq<char>,
        ty: CharacterType,
        pool: Seq<Character>,
        stream: Seq<char>,
        zero: Option<Seq<char>>,
    ) -> Option<Seq<char>> {
        let rng = self.night_stream(stream + ":c"@);
        if self.seat_off(seat) {
            match self.false_pair(pool, rng) {
                Some(info) => Some(self.pair_text(ability, info)),
                None => None,
            }
        } else if holders_of_type(self.seats, ty).len() == 0 && zero is Some {
            zero
        } else {
            let (found, after) = self.true_pair(ty, pool, rng);
            match found {
                Some(info) => Some(self.pair_text(ability, info)),
                None => match self.false_pair(pool, after) {
                    Some(info) => Some(self.pair_text(ability, info)),
                    None => None,
                },
            }
        }
    }

    /// What the Spy sees.
    pub open spec fn spy_text(self, seat: SeatId) -> Seq<char> {
        if self.seat_off(seat) {
            joined(fake_lines(self.seats, self.night_stream("spy_lie:c"@)).0, "\n"@)
        } else {
            joined(true_lines(self.seats), "\n"@)
        }
    }

    /// Substream label of one side of a Chef detection.
    pub open spec fn chef_label(self, seat: SeatId, side: Seq<char>) -> Seq<char> {
        "chef_reg:"@ + dec(self.night_cursor as nat) + ":"@ + dec(seat.0 as nat) + side
    }

    /// Neighbouring pairs among the first `upto` seats (each with its clockwise neighbour)
    /// that both register as evil.
    pub open spec fn evil_pairs(self, upto: int) -> nat
        decreases upto,
    {
        if upto <= 0 {
            0
        } else {
            let i = upto - 1;
            let a = self.seats[i].id;
            let b = self.seats[if i + 1 < self.seats.len() { i + 1 } else { 0 }].id;
            let pair = self.registers_evil(a, self.chef_label(a, ":a"@)) && self.registers_evil(
                b,
                self.chef_label(b, ":b"@),
            );
            self.evil_pairs(upto - 1) + if pair { 1nat } else { 0nat }
        }
    }

    /// The Chef's number: evil neighbouring pairs of the whole circle (the count stops at 255).
    pub open spec fn chef_number(self) -> u8 {
        if self.seats.len() < 2 {
            0
        } else {
            let n = self.evil_pairs(self.seats.len() as int);
            if n < 255 { n as u8 } else { 255 }
        }
    }

    /// What the Chef is shown: the true number, or when disabled another one up to four.
    pub open spec fn chef_shown(self, seat: SeatId) -> u8 {
        if self.seat_off(seat) {
            let size = self.seats.len() % 256;
            let lies = lies_up_to(if size < 4 { size as int } else { 4 }, self.chef_number() as int);
            if lies.len() == 0 {
                self.chef_number()
            } else {
                lies[self.night_stream("chef_lie:c"@).below(lies.len()).0]
            }
        } else {
            self.chef_number()
        }
    }

    /// Substream label of an Empath detection.
    pub open spec fn empath_label(self, seat: SeatId) -> Seq<char> {
        "empath_reg:"@ + dec(self.night_cursor as nat) + ":"@ + dec(seat.0 as nat)
    }

    /// One if the seat at this index registers as evil for the Empath, else zero.
    pub open spec fn empath_ping(self, i: int) -> u8 {
        let id = self.seats[i].id;
        if self.registers_evil(id, self.empath_label(id)) { 1 } else { 0 }
    }

    /// The Empath's number: evil among the nearest living neighbours on either side; one
    /// shared neighbour counts once.
    pub open spec fn empath_number(self, seat: SeatId) -> u8 {
        match seat_index(self.seats, seat) {
            None => 0,
            Some(at) => match (
                next_living(self.seats, at, true, 1),
                next_living(self.seats, at, false, 1),
            ) {
                (Some(cw), Some(ccw)) => if cw == at {
                    0
                } else if cw == ccw {
                    self.empath_ping(cw)
                } else {
                    (self.empath_ping(cw) + self.empath_ping(ccw)) as u8
                },
                _ => 0,
            },
        }
    }

    /// What the Empath is shown: the true number, or when disabled another one up to two.
    pub open spec fn empath_shown(self, seat: SeatId) -> u8 {
        if self.seat_off(seat) {
            let lies = lies_up_to(2, self.empath_number(seat) as int);
            lies[self.night_stream("empath_lie:c"@).below(lies.len()).0]
        } else {
            self.empath_number(seat)
        }
    }

    /// The seat makes the Fortune Teller hear yes: it is the red herring or shows as Demon.
    pub open spec fn fortune_ping(self, seat: SeatId, tag: Seq<char>) -> bool {
        self.red_herring == Some(seat) || self.registers_demon(
            seat,
            "ft_reg:"@ + dec(self.night_cursor as nat) + ":"@ + dec(seat.0 as nat) + ":"@ + tag,
        )
    }

    /// What the Fortune Teller hears: the truth, or always its opposite when disabled.
    pub open spec fn fortune_text(self, seat: SeatId, a: SeatId, b: SeatId) -> Seq<char> {
        let truth = self.fortune_ping(a, "a"@) || self.fortune_ping(b, "b"@);
        let shown = truth != self.seat_off(seat);
        "Fortune Teller: "@ + (if shown { "YES"@ } else { "NO"@ }) + " — at least one of "@
            + self.badge(a) + " and "@ + self.badge(b) + " is a Demon? "@ + (if shown {
            "yes"@
        } else {
            "no"@
        }) + "."@
    }

    /// What the Undertaker learns of today's execution.
    pub open spec fn undertaker_text(self, seat: SeatId) -> Seq<char> {
        let known = |c: Character| "Undertaker: the player executed today was the "@ + name_of(c)
            + "."@;
        if self.seat_off(seat) {
            known(full_pool()[self.night_stream("undertaker_lie:c"@).choice(full_pool().len()).0])
        } else {
            match self.executed_today {
                Some(ex) => known(
                    match seat_of(self.seats, ex) {
                        Some(s) => match s.true_character {
                            Some(c) => c,
                            None => Character::Imp,
                        },
                        None => Character::Imp,
                    },
                ),
                None => "Undertaker: nobody was executed today."@,
            }
        }
    }

    /// What the Ravenkeeper learns of its target.
    pub open spec fn ravenkeeper_text(self, seat: SeatId, target: SeatId) -> Seq<char> {
        let shown = if self.seat_off(seat) {
            full_pool()[self.night_stream("ravenkeeper_lie:c"@).choice(full_pool().len()).0]
        } else {
            match seat_of(self.seats, target) {
                Some(s) => match s.true_character {
                    Some(c) => c,
                    None => Character::Soldier,
                },
                None => Character::Soldier,
            }
        };
        "Ravenkeeper: "@ + self.badge(target) + " is the "@ + name_of(shown) + "."@
    }

    /// The Butler at `seat` serves `target`.
    pub open spec fn butler_serves(self, seat: SeatId, target: SeatId) -> GameView {
        match seat_of(self.seats, seat) {
            Some(s) => GameView {
                seats: with_seat(self.seats, seat, Seat { butler_master: Some(target), ..s }),
                ..self
            },
            None => self,
        }
    }

    /// What an information step tells whom, with the game it leaves before the message goes
    /// out. `Ok(None)`: the step carries no information.
    #[verifier::opaque]
    pub open spec fn night_info(
        self,
        step: NightStep,
        payload: Option<NightActionPayload>,
    ) -> Result<
        Option<(GameView, SeatId, Seq<char>)>,
        GameError,
    > {
        match step {
            NightStep::Spy { seat } => Ok(Some((self, seat, self.spy_text(seat)))),
            NightStep::Washerwoman { seat } => match self.pair_result(
                seat,
                "Washerwoman"@,
                CharacterType::Townsfolk,
                townsfolk_pool(),
                "washerwoman"@,
                None,
            ) {
                Some(text) => Ok(Some((self, seat, text))),
                None => Err(GameError::IllegalAction("cannot generate pair info")),
            },
            NightStep::Librarian { seat } => match self.pair_result(
                seat,
                "Librarian"@,
                CharacterType::Outsider,
                outsiders_pool(),
                "librarian"@,
                Some("Librarian: there are 0 Outsiders in play."@),
            ) {
                Some(text) => Ok(Some((self, seat, text))),
                None => Err(GameError::IllegalAction("cannot generate pair info")),
            },
            NightStep::Investigator { seat } => match self.pair_result(
                seat,
                "Investigator"@,
                CharacterType::Minion,
                minions_pool(),
                "investigator"@,
                None,
            ) {
                Some(text) => Ok(Some((self, seat, text))),
                None => Err(GameError::IllegalAction("cannot generate pair info")),
            },
            NightStep::Chef { seat } => Ok(
                Some(
                    (
                        self,
                        seat,
                        "Chef: you learn that there are "@ + dec(self.chef_shown(seat) as nat)
                            + " pairs of evil neighbors."@,
                    ),
                ),
            ),
            NightStep::Empath { seat } => Ok(
                Some(
                    (
                        self,
                        seat,
                        "Empath: you learn that "@ + dec(self.empath_shown(seat) as nat)
                            + " of your living neighbors are evil."@,
                    ),
                ),
            ),
            NightStep::FortuneTeller { seat } => match payload {
                Some(NightActionPayload::PickTwo { a, b }) => Ok(
                    Some((self, seat, self.fortune_text(seat, a, b))),
                ),
                _ => Err(GameError::WrongPayload),
            },
            NightStep::Butler { seat } => match payload {
                Some(NightActionPayload::PickOne { target }) => {
                    let g = self.butler_serves(seat, target);
                    Ok(Some((g, seat, "Butler: your master is "@ + g.badge(target) + "."@)))
                },
                _ => Err(GameError::WrongPayload),
            },
            NightStep::Undertaker { seat } => Ok(Some((self, seat, self.undertaker_text(seat)))),
            NightStep::Ravenkeeper { seat } => match payload {
                Some(NightActionPayload::PickOne { target }) => Ok(
                    Some((self, seat, self.ravenkeeper_text(seat, target))),
                ),
                _ => Err(GameError::WrongPayload),
            },
            _ => Ok(None),
        }
    }

    /// The game after an information step, and what was told to whom.
    pub open spec fn informed(self, step: NightStep, payload: Option<NightActionPayload>) -> Result<
        (GameView, Seq<(SeatId, PrivateMessageView)>),
        GameError,
    > {
        match self.night_info(step, payload) {
            Ok(Some((g, seat, text))) => {
                let msg = PrivateMessageView::NightResult { text };
                Ok((g.whisper(seat, msg), seq![(seat, msg)]))
            },
            Ok(None) => Ok((self, seq![])),
            Err(e) => Err(e),
        }
    }
}

/// Resolve an info / passive-choice night step. Mutates game (private msgs, butler master).
pub fn resolve(
    game: &mut Game,
    step: NightStep,
    payload: Option<&NightActionPayload>,
) -> (r: Result<
    NightEffect,
    GameError,
>)
    ensures
        match old(game)@.informed(step, opt_payload(payload)) {
            Ok((g, told)) => r matches Ok(effect) && effect@ == told && final(game)@ == g,
            Err(e) => r == Err::<NightEffect, GameError>(e) && final(game)@ == old(game)@,
        },
{
    reveal(GameView::night_info);
    match step {
        NightStep::Spy { seat } => resolve_spy(game, seat),
        NightStep::Washerwoman { seat } => resolve_washerwoman(game, seat),
        NightStep::Librarian { seat } => resolve_librarian(game, seat),
        NightStep::Investigator { seat } => resolve_investigator(game, seat),
        NightStep::Chef { seat } => resolve_chef(game, seat),
        NightStep::Empath { seat } => resolve_empath(game, seat),
        NightStep::FortuneTeller { seat } => match payload {
            Some(p) => resolve_fortune_teller(game, seat, p),
            None => Err(GameError::WrongPayload),
        },
        NightStep::Butler { seat } => match payload {
            Some(p) => resolve_butler(game, seat, p),
            None => Err(GameError::WrongPayload),
        },
        NightStep::Undertaker { seat } => resolve_undertaker(game, seat),
        NightStep::Ravenkeeper { seat } => match payload {
            Some(p) => resolve_ravenkeeper(game, seat, p),
            None => Err(GameError::WrongPayload),
        },
        _ => {
            let effect = NightEffect { private: Vec::new() };
            assert(effect@ =~= seq![]);
            Ok(effect)
        },
    }
}

/// An optional payload behind a reference.
pub open spec fn opt_payload(p: Option<&NightActionPayload>) -> Option<NightActionPayload> {
    match p {
        Some(q) => Some(*q),
        None => None,
    }
}

fn stream_label(game: &Game, role: &str) -> (s: String)
    ensures
        s@ == role@ + ":c"@ + dec(game@.night_cursor as nat),
{
    let prefix = role.to_owned().concat(":c");
    numbered(prefix.as_str(), game.night_cursor as u64)
}

/// The substream of a role's draws at this queue position.
fn night_rng(game: &Game, prefix: &str) -> (r: Substream)
    ensures
        r == game@.night_stream(prefix@),
{
    let label = numbered(prefix, game.night_cursor as u64);
    game.rng.substream(label.as_str())
}

fn seat_disabled(game: &Game, seat: SeatId) -> (b: bool)
    ensures
        b == game@.seat_off(seat),
{
    match find_seat(&game.seats, seat) {
        Some(i) => game.seats[i].ability_disabled(),
        None => true,
    }
}

fn push_result(game: &mut Game, seat: SeatId, text: String) -> (e: NightEffect)
    ensures
        final(game)@ == old(game)@.whisper(seat, PrivateMessageView::NightResult { text: text@ }),
        e@ == seq![(seat, PrivateMessageView::NightResult { text: text@ })],
{
    let msg = PrivateMessage::NightResult { text };
    game.private_inboxes.push(seat, msg.clone());
    let mut private: Vec<(SeatId, PrivateMessage)> = Vec::new();
    private.push((seat, msg));
    let e = NightEffect { private };
    assert(e@ =~= seq![(seat, PrivateMessageView::NightResult { text: text@ })]);
    e
}

fn seat_name(game: &Game, seat: SeatId) -> (s: String)
    ensures
        s@ == match seat_of(game@.seats, seat) {
            Some(s) => s.display_name@,
            None => "seat "@ + dec(seat.0 as nat),
        },
{
    match find_seat(&game.seats, seat) {
        Some(i) => game.seats[i].display_name.clone(),
        None => numbered("seat ", seat.0 as u64),
    }
}

/// A seat with its number, as players read it.
pub fn format_seat(game: &Game, seat: SeatId) -> (s: String)
    ensures
        s@ == game@.badge(seat),
{
    let mut s = seat_name(game, seat);
    s.append(" (seat ");
    push_dec(&mut s, seat.0 as u64);
    s.append(")");
    s
}

// ---------------------------------------------------------------------------
// Pair-info helpers (Washerwoman / Librarian / Investigator)
// ---------------------------------------------------------------------------

fn pair_message(game: &Game, ability: &str, info: &PairInfo) -> (s: String)
    ensures
        s@ == game@.pair_text(ability@, *info),
{
    let mut s = ability.to_owned();
    s.append(": one of ");
    s.append(format_seat(game, info.seat_a).as_str());
    s.append(" and ");
    s.append(format_seat(game, info.seat_b).as_str());
    s.append(" is the ");
    s.append(info.character.display_name());
    s.append(".");
    s
}

#[verifier::loop_isolation(false)]
fn seats_of_type(game: &Game, ty: CharacterType) -> (v: Vec<(SeatId, Character)>)
    ensures
        v@ == holders_of_type(game@.seats, ty),
{
    let mut v: Vec<(SeatId, Character)> = Vec::new();
    let mut i: usize = 0;
    while i < game.seats.len()
        invariant
            i <= game.seats.len(),
            v@ == holders_of_type(game@.seats.take(i as int), ty),
        decreases game.seats.len() - i,
    {
        let s = &game.seats[i];
        assert(game@.seats.take(i + 1).drop_last() =~= game@.seats.take(i as int));
        if let Some(c) = s.true_character {
            if c.character_type() == ty {
                v.push((s.id, c));
            }
        }
        i += 1;
    }
    assert(game@.seats.take(i as int) =~= game@.seats);
    v
}

#[verifier::loop_isolation(false)]
fn find_spy(game: &Game) -> (r: Option<usize>)
    ensures
        match first_where(game@.seats, |s: Seat| s.true_character == Some(Character::Spy)) {
            Some(i) => i < game@.seats.len() && (r matches Some(k) && k == i),
            None => r is None,
        },
{
    let ghost wanted = |s: Seat| s.true_character == Some(Character::Spy);
    proof {
        first_where_is_first(game@.seats, wanted);
    }
    let mut i: usize = 0;
    while i < game.seats.len()
        invariant
            i <= game.seats.len(),
            forall|k: int| 0 <= k < i ==> !wanted(#[trigger] game@.seats[k]),
        decreases game.seats.len() - i,
    {
        if game.seats[i].true_character == Some(Character::Spy) {
            assert(wanted(game@.seats[i as int]));
            return Some(i);
        }
        i += 1;
    }
    None
}

fn hide_spy(game: &Game, spy: &Seat, rng: &mut Substream) -> (b: bool)
    ensures
        (b, *final(rng)) == game@.spy_hides(*spy, *old(rng)),
{
    match game.registration_mode {
        RegistrationMode::Random => rng.gen_ratio(1, 2),
        RegistrationMode::AlwaysTrue => false,
        RegistrationMode::AlwaysMisreg => !spy.ability_disabled(),
    }
}

/// Owners eligible for WW/Lib/Inv "correct" seat.
///
/// True seats of `ty`, plus for Townsfolk: Spy may register as a Townsfolk with p=0.5
/// and become a valid correct-seat owner for that character. The odds are those of
/// [`RegistrationMode::Random`]; the other modes fix the outcome.
fn pair_owners(
    game: &Game,
    ty: CharacterType,
    pool: &Vec<Character>,
    rng: &mut Substream,
) -> (v: Vec<
    (SeatId, Character),
>)
    ensures
        (v@, *final(rng)) == game@.pair_owners(ty, pool@, *old(rng)),
{
    let mut owners = seats_of_type(game, ty);
    if ty == CharacterType::Townsfolk {
        if let Some(spy) = find_spy(game) {
            if hide_spy(game, &game.seats[spy], rng) {
                // Prefer an in-play Townsfolk token; else any from the townsfolk pool.
                let character = if owners.len() > 0 {
                    owners[rng.gen_below(owners.len())].1
                } else if pool.len() > 0 {
                    pool[rng.pick(pool.len())]
                } else {
                    Character::Soldier
                };
                owners.push((game.seats[spy].id, character));
            }
        }
    }
    owners
}

#[verifier::loop_isolation(false)]
fn seats_other_than(game: &Game, seat: SeatId) -> (v: Vec<SeatId>)
    ensures
        v@ == ids_where(game@.seats, |s: Seat| s.id != seat),
{
    let ghost keep = |s: Seat| s.id != seat;
    let mut v: Vec<SeatId> = Vec::new();
    let mut i: usize = 0;
    while i < game.seats.len()
        invariant
            i <= game.seats.len(),
            v@ == ids_where(game@.seats.take(i as int), keep),
        decreases game.seats.len() - i,
    {
        let s = &game.seats[i];
        assert(game@.seats.take(i + 1).drop_last() =~= game@.seats.take(i as int));
        if s.id != seat {
            v.push(s.id);
        }
        i += 1;
    }
    assert(game@.seats.take(i as int) =~= game@.seats);
    v
}

fn truthful_pair_info(
    game: &Game,
    ty: CharacterType,
    pool: &Vec<Character>,
    rng: &mut Substream,
) -> (r: Option<PairInfo>)
    ensures
        (r, *final(rng)) == game@.true_pair(ty, pool@, *old(rng)),
{
    let owners = pair_owners(game, ty, pool, rng);
    if owners.len() == 0 {
        return None;
    }
    let (correct_seat, character) = owners[rng.gen_below(owners.len())];
    let others = seats_other_than(game, correct_seat);
    if others.len() == 0 {
        return None;
    }
    let wrong = others[rng.gen_below(others.len())];
    let info = if rng.gen_ratio(1, 2) {
        PairInfo { character, seat_a: correct_seat, seat_b: wrong }
    } else {
        PairInfo { character, seat_a: wrong, seat_b: correct_seat }
    };
    Some(info)
}

fn lie_pair_info(game: &Game, pool: &Vec<Character>, rng: &mut Substream) -> (r: Option<PairInfo>)
    ensures
        r == game@.false_pair(pool@, *old(rng)),
{
    if game.seats.len() < 2 {
        return None;
    }
    let order = rng.shuffled(game.seats.len());
    if pool.len() == 0 {
        return None;
    }
    let character = pool[rng.pick(pool.len())];
    Some(
        PairInfo {
            character,
            seat_a: game.seats[order[0]].id,
            seat_b: game.seats[order[1]].id,
        },
    )
}

/// The wording for a pair role, or `None` when nothing can be said.
fn pair_role_text(
    game: &Game,
    seat: SeatId,
    ability: &str,
    ty: CharacterType,
    pool: &Vec<Character>,
    stream: &str,
    zero_message: Option<&str>,
) -> (r: Option<String>)
    ensures
        crate::comms::opt_text(r) == game@.pair_result(
            seat,
            ability@,
            ty,
            pool@,
            stream@,
            match zero_message {
                Some(z) => Some(z@),
                None => None,
            },
        ),
{
    let label = stream_label(game, stream);
    let mut rng = game.rng.substream(label.as_str());
    if !seat_disabled(game, seat) {
        // Zero-path uses true bag count only (Spy registration does not invent Outsiders).
        if seats_of_type(game, ty).len() == 0 {
            if let Some(z) = zero_message {
                return Some(z.to_owned());
            }
        }
        if let Some(info) = truthful_pair_info(game, ty, pool, &mut rng) {
            return Some(pair_message(game, ability, &info));
        }
    }
    // Disabled, or no owners and no zero path: lie.
    match lie_pair_info(game, pool, &mut rng) {
        Some(info) => Some(pair_message(game, ability, &info)),
        None => None,
    }
}

fn resolve_pair_role(
    game: &mut Game,
    seat: SeatId,
    ability: &str,
    ty: CharacterType,
    pool: &Vec<Character>,
    stream: &str,
    zero_message: Option<&str>,
) -> (r: Result<NightEffect, GameError>)
    ensures
        match old(game)@.pair_result(
            seat,
            ability@,
            ty,
            pool@,
            stream@,
            match zero_message {
                Some(z) => Some(z@),
                None => None,
            },
        ) {
            Some(text) => r matches Ok(effect) && effect@ == seq![
                (seat, PrivateMessageView::NightResult { text }),
            ] && final(game)@ == old(game)@.whisper(
                seat,
                PrivateMessageView::NightResult { text },
            ),
            None => r == Err::<NightEffect, GameError>(
                GameError::IllegalAction("cannot generate pair info"),
            ) && final(game)@ == old(game)@,
        },
{
    match pair_role_text(game, seat, ability, ty, pool, stream, zero_message) {
        Some(text) => Ok(push_result(game, seat, text)),
        None => Err(GameError::IllegalAction("cannot generate pair info")),
    }
}

// ---------------------------------------------------------------------------
// Spy grimoire
// ---------------------------------------------------------------------------

/// A step whose message is known: the result that [`resolve`] owes for it.
pub open spec fn tells(
    before: GameView,
    step: NightStep,
    payload: Option<NightActionPayload>,
    after: GameView,
    r: Result<NightEffect, GameError>,
) -> bool {
    match before.informed(step, payload) {
        Ok((g, told)) => r matches Ok(effect) && effect@ == told && after == g,
        Err(e) => r == Err::<NightEffect, GameError>(e) && after == before,
    }
}

/// Structured grimoire snapshot for the Spy (true if ability active; seeded fake if disabled).
fn resolve_spy(game: &mut Game, seat: SeatId) -> (r: Result<NightEffect, GameError>)
    ensures
        tells(old(game)@, NightStep::Spy { seat }, None, final(game)@, r),
        r is Ok,
{
    reveal(GameView::night_info);
    let text = if seat_disabled(game, seat) {
        let mut rng = night_rng(game, "spy_lie:c");
        format_fake_grimoire(game, &mut rng)
    } else {
        format_true_grimoire(game)
    };
    Ok(push_result(game, seat, text))
}

#[verifier::loop_isolation(false)]
fn format_true_grimoire(game: &Game) -> (s: String)
    ensures
        s@ == joined(true_lines(game@.seats), "\n"@),
{
    let mut lines: Vec<String> = Vec::new();
    lines.push("Spy: Grimoire".to_owned());
    let mut i: usize = 0;
    assert(texts(lines@) =~= true_lines(game@.seats.take(0)));
    while i < game.seats.len()
        invariant
            i <= game.seats.len(),
            texts(lines@) == true_lines(game@.seats.take(i as int)),
        decreases game.seats.len() - i,
    {
        let s = &game.seats[i];
        let ghost before = lines@;
        let line = format_grimoire_seat_line(
            s.display_name.as_str(),
            s.id,
            s.alive,
            s.true_character,
            s.poisoned,
            s.believed_character,
        );
        lines.push(line);
        assert(texts(lines@) =~= texts(before).push(line@));
        i += 1;
        assert(game@.seats.take(i as int).drop_last() =~= game@.seats.take(i - 1));
    }
    assert(game@.seats.take(i as int) =~= game@.seats);
    join(&lines, "\n")
}

#[verifier::loop_isolation(false)]
fn format_fake_grimoire(game: &Game, rng: &mut Substream) -> (s: String)
    ensures
        s@ == joined(fake_lines(game@.seats, *old(rng)).0, "\n"@),
{
    let pool = all_characters();
    let ghost start = *rng;
    let mut lines: Vec<String> = Vec::new();
    lines.push("Spy: Grimoire".to_owned());
    let mut i: usize = 0;
    assert(texts(lines@) =~= fake_lines(game@.seats.take(0), start).0);
    while i < game.seats.len()
        invariant
            i <= game.seats.len(),
            pool@ == full_pool(),
            pool@.len() == 22,
            (texts(lines@), *rng) == fake_lines(game@.seats.take(i as int), start),
        decreases game.seats.len() - i,
    {
        let s = &game.seats[i];
        let ghost before = lines@;
        // Keep name/alive/poisoned shape; scramble character tokens.
        let fake_char = pool[rng.pick(pool.len())];
        // Occasionally invent a believed face for variety.
        let believed = if rng.gen_ratio(1, 5) {
            Some(pool[rng.pick(pool.len())])
        } else {
            None
        };
        let line = format_grimoire_seat_line(
            s.display_name.as_str(),
            s.id,
            s.alive,
            Some(fake_char),
            s.poisoned,
            believed,
        );
        lines.push(line);
        assert(texts(lines@) =~= texts(before).push(line@));
        i += 1;
        assert(game@.seats.take(i as int).drop_last() =~= game@.seats.take(i - 1));
    }
    assert(game@.seats.take(i as int) =~= game@.seats);
    join(&lines, "\n")
}

fn format_grimoire_seat_line(
    name: &str,
    id: SeatId,
    alive: bool,
    true_character: Option<Character>,
    poisoned: bool,
    believed: Option<Character>,
) -> (line: String)
    ensures
        line@ == grimoire_line(name@, id, alive, true_character, poisoned, believed),
{
    let char_name = match true_character {
        Some(c) => c.display_name(),
        None => "unknown",
    };
    let mut line = "- ".to_owned();
    line.append(name);
    line.append(" (seat ");
    push_dec(&mut line, id.0 as u64);
    line.append("): ");
    line.append(if alive { "alive" } else { "dead" });
    line.append(", ");
    line.append(char_name);
    line.append(", poisoned=");
    line.append(if poisoned { "true" } else { "false" });
    if let Some(b) = believed {
        line.append(", believed=");
        line.append(b.display_name());
    }
    line
}

fn resolve_washerwoman(game: &mut Game, seat: SeatId) -> (r: Result<NightEffect, GameError>)
    ensures
        tells(old(game)@, NightStep::Washerwoman { seat }, None, final(game)@, r),
{
    reveal(GameView::night_info);
    resolve_pair_role(
        game,
        seat,
        "Washerwoman",
        CharacterType::Townsfolk,
        &all_townsfolk(),
        "washerwoman",
        None,
    )
}

fn resolve_librarian(game: &mut Game, seat: SeatId) -> (r: Result<NightEffect, GameError>)
    ensures
        tells(old(game)@, NightStep::Librarian { seat }, None, final(game)@, r),
{
    reveal(GameView::night_info);
    resolve_pair_role(
        game,
        seat,
        "Librarian",
        CharacterType::Outsider,
        &all_outsiders(),
        "librarian",
        Some("Librarian: there are 0 Outsiders in play."),
    )
}

fn resolve_investigator(game: &mut Game, seat: SeatId) -> (r: Result<NightEffect, GameError>)
    ensures
        tells(old(game)@, NightStep::Investigator { seat }, None, final(game)@, r),
{
    reveal(GameView::night_info);
    resolve_pair_role(
        game,
        seat,
        "Investigator",
        CharacterType::Minion,
        &all_minions(),
        "investigator",
        None,
    )
}

// ---------------------------------------------------------------------------
// Chef / Empath
// ---------------------------------------------------------------------------

fn chef_side(game: &Game, seat: SeatId, side: &str) -> (b: bool)
    ensures
        b == game@.registers_evil(seat, game@.chef_label(seat, side@)),
{
    let mut label = numbered("chef_reg:", game.night_cursor as u64);
    label.append(":");
    push_dec(&mut label, seat.0 as u64);
    label.append(side);
    register_evil(game, seat, label.as_str())
}

/// Evil neighbouring pairs around the whole circle.
#[verifier::loop_isolation(false)]
pub fn chef_true_count(game: &Game) -> (count: u8)
    ensures
        count == game@.chef_number(),
{
    let n = game.seats.len();
    if n < 2 {
        return 0;
    }
    let mut count: u8 = 0;
    let mut i: usize = 0;
    while i < n
        invariant
            i <= n,
            count == (if game@.evil_pairs(i as int) < 255 {
                game@.evil_pairs(i as int) as u8
            } else {
                255u8
            }),
        decreases n - i,
    {
        let a = game.seats[i].id;
        let b = game.seats[if i + 1 < n { i + 1 } else { 0 }].id;
        if chef_side(game, a, ":a") && chef_side(game, b, ":b") {
            count = count.saturating_add(1);
        }
        i += 1;
    }
    count
}

/// The options of a false count.
#[verifier::loop_isolation(false)]
fn lie_options(max: u8, truth: u8) -> (v: Vec<u8>)
    requires
        max <= 4,
    ensures
        v@ == lies_up_to(max as int, truth as int),
{
    let mut v: Vec<u8> = Vec::new();
    let mut x: u8 = 0;
    while x <= max
        invariant
            x <= max + 1,
            v@ == lies_up_to(x - 1, truth as int),
        decreases max + 1 - x,
    {
        if x != truth {
            v.push(x);
        }
        x += 1;
    }
    v
}

fn resolve_chef(game: &mut Game, seat: SeatId) -> (r: Result<NightEffect, GameError>)
    ensures
        tells(old(game)@, NightStep::Chef { seat }, None, final(game)@, r),
{
    reveal(GameView::night_info);
    let truth = chef_true_count(game);
    let shown = if seat_disabled(game, seat) {
        let mut rng = night_rng(game, "chef_lie:c");
        lie_chef_count(&mut rng, truth, game.seats.len())
    } else {
        truth
    };
    let mut text = numbered("Chef: you learn that there are ", shown as u64);
    text.append(" pairs of evil neighbors.");
    Ok(push_result(game, seat, text))
}

fn lie_chef_count(rng: &mut Substream, truth: u8, n: usize) -> (shown: u8)
    ensures
        shown == ({
            let size = n % 256;
            let lies = lies_up_to(if size < 4 { size as int } else { 4 }, truth as int);
            if lies.len() == 0 { truth } else { lies[old(rng).below(lies.len()).0] }
        }),
{
    let size: usize = n % 256;
    let max: u8 = if size < 4 { size as u8 } else { 4 };
    let options = lie_options(max, truth);
    if options.len() == 0 {
        truth
    } else {
        options[rng.gen_below(options.len())]
    }
}

/// One if the seat at this position registers as evil for the Empath.
fn empath_side(game: &Game, i: usize) -> (n: u8)
    requires
        i < game@.seats.len(),
    ensures
        n == game@.empath_ping(i as int),
{
    let id = game.seats[i].id;
    let mut label = numbered("empath_reg:", game.night_cursor as u64);
    label.append(":");
    push_dec(&mut label, id.0 as u64);
    if register_evil(game, id, label.as_str()) { 1 } else { 0 }
}

/// Living neighbors CW / CCW (skip dead). Same seat counted once if only one other living.
pub fn empath_true_count(game: &Game, seat: SeatId) -> (count: u8)
    ensures
        count == game@.empath_number(seat),
        count <= 2,
{
    let idx = match find_seat(&game.seats, seat) {
        Some(i) => i,
        None => return 0,
    };
    let cw = match next_living_index(&game.seats, idx, true) {
        Some(i) => i,
        None => return 0,
    };
    let ccw = match next_living_index(&game.seats, idx, false) {
        Some(i) => i,
        None => return 0,
    };
    // Alone: both walks return self.
    if cw == idx {
        return 0;
    }
    if cw == ccw {
        return empath_side(game, cw);
    }
    empath_side(game, cw) + empath_side(game, ccw)
}

/// The nearest living seat around the circle.
#[verifier::loop_isolation(false)]
fn next_living_index(seats: &Vec<Seat>, from: usize, clockwise: bool) -> (r: Option<usize>)
    requires
        from < seats.len(),
    ensures
        match r {
            Some(i) => i < seats.len() && next_living(seats@, from as int, clockwise, 1) == Some(
                i as int,
            ),
            None => next_living(seats@, from as int, clockwise, 1) is None,
        },
{
    let n = seats.len();
    let mut walked: usize = 0;
    while walked < n
        invariant
            walked <= n,
            next_living(seats@, from as int, clockwise, 1) == next_living(
                seats@,
                from as int,
                clockwise,
                walked + 1,
            ),
        decreases n - walked,
    {
        // `walked + 1` seats on from `from`.
        let i: usize = if clockwise {
            if walked < n - from - 1 { from + (walked + 1) } else { walked - (n - from - 1) }
        } else {
            if walked < from { from - (walked + 1) } else { n - (walked - from) - 1 }
        };
        assert(i == around(from as int, walked + 1, n as int, clockwise));
        if seats[i].alive {
            return Some(i);
        }
        walked += 1;
    }
    None
}

fn lie_count_0_2(rng: &mut Substream, truth: u8) -> (shown: u8)
    requires
        truth <= 2,
    ensures
        shown == lies_up_to(2, truth as int)[old(rng).below(lies_up_to(2, truth as int).len()).0],
{
    let options = lie_options(2, truth);
    proof {
        reveal_with_fuel(lies_up_to, 4);
    }
    options[rng.gen_below(options.len())]
}

fn resolve_empath(game: &mut Game, seat: SeatId) -> (r: Result<NightEffect, GameError>)
    ensures
        tells(old(game)@, NightStep::Empath { seat }, None, final(game)@, r),
{
    reveal(GameView::night_info);
    let truth = empath_true_count(game, seat);
    let shown = if seat_disabled(game, seat) {
        let mut rng = night_rng(game, "empath_lie:c");
        lie_count_0_2(&mut rng, truth)
    } else {
        truth
    };
    let mut text = numbered("Empath: you learn that ", shown as u64);
    text.append(" of your living neighbors are evil.");
    Ok(push_result(game, seat, text))
}

// ---------------------------------------------------------------------------
// Fortune Teller
// ---------------------------------------------------------------------------

fn ft_pings(game: &Game, seat: SeatId, tag: &str) -> (b: bool)
    ensures
        b == game@.fortune_ping(seat, tag@),
{
    if game.red_herring == Some(seat) {
        return true;
    }
    let mut label = numbered("ft_reg:", game.night_cursor as u64);
    label.append(":");
    push_dec(&mut label, seat.0 as u64);
    label.append(":");
    label.append(tag);
    register_demon_for_ft(game, seat, label.as_str())
}

fn ft_true_yes(game: &Game, a: SeatId, b: SeatId) -> (yes: bool)
    ensures
        yes == (game@.fortune_ping(a, "a"@) || game@.fortune_ping(b, "b"@)),
{
    ft_pings(game, a, "a") || ft_pings(game, b, "b")
}

fn resolve_fortune_teller(
    game: &mut Game,
    seat: SeatId,
    payload: &NightActionPayload,
) -> (r: Result<
    NightEffect,
    GameError,
>)
    ensures
        tells(old(game)@, NightStep::FortuneTeller { seat }, Some(*payload), final(game)@, r),
{
    reveal(GameView::night_info);
    match payload {
        NightActionPayload::PickTwo { a, b } => {
            let truth = ft_true_yes(game, *a, *b);
            // Always lie when disabled.
            let shown = if seat_disabled(game, seat) { !truth } else { truth };
            let mut text = "Fortune Teller: ".to_owned();
            text.append(if shown { "YES" } else { "NO" });
            text.append(" — at least one of ");
            text.append(format_seat(game, *a).as_str());
            text.append(" and ");
            text.append(format_seat(game, *b).as_str());
            text.append(" is a Demon? ");
            text.append(if shown { "yes" } else { "no" });
            text.append(".");
            Ok(push_result(game, seat, text))
        },
        _ => Err(GameError::WrongPayload),
    }
}

// ---------------------------------------------------------------------------
// Butler / Undertaker / Ravenkeeper
// ---------------------------------------------------------------------------

/// Record the Butler's master.
pub fn set_butler_master(game: &mut Game, seat: SeatId, target: SeatId)
    ensures
        final(game)@ == old(game)@.butler_serves(seat, target),
{
    if let Some(i) = find_seat(&game.seats, seat) {
        game.seats[i].butler_master = Some(target);
    }
}

fn resolve_butler(game: &mut Game, seat: SeatId, payload: &NightActionPayload) -> (r: Result<
    NightEffect,
    GameError,
>)
    ensures
        tells(old(game)@, NightStep::Butler { seat }, Some(*payload), final(game)@, r),
{
    reveal(GameView::night_info);
    match payload {
        NightActionPayload::PickOne { target } => {
            // Always store master; day vote enforces ability_disabled (no real restriction).
            set_butler_master(game, seat, *target);
            let mut text = "Butler: your master is ".to_owned();
            text.append(format_seat(game, *target).as_str());
            text.append(".");
            Ok(push_result(game, seat, text))
        },
        _ => Err(GameError::WrongPayload),
    }
}

fn resolve_undertaker(game: &mut Game, seat: SeatId) -> (r: Result<NightEffect, GameError>)
    ensures
        tells(old(game)@, NightStep::Undertaker { seat }, None, final(game)@, r),
{
    reveal(GameView::night_info);
    let shown = if seat_disabled(game, seat) {
        let mut rng = night_rng(game, "undertaker_lie:c");
        random_pool_character(&mut rng)
    } else if let Some(ex) = game.executed_today {
        match find_seat(&game.seats, ex) {
            Some(i) => match game.seats[i].true_character {
                Some(c) => c,
                None => Character::Imp,
            },
            None => Character::Imp,
        }
    } else {
        // Should not wake without execution; soft fallback.
        return Ok(
            push_result(game, seat, "Undertaker: nobody was executed today.".to_owned()),
        );
    };
    let mut text = "Undertaker: the player executed today was the ".to_owned();
    text.append(shown.display_name());
    text.append(".");
    Ok(push_result(game, seat, text))
}

fn resolve_ravenkeeper(game: &mut Game, seat: SeatId, payload: &NightActionPayload) -> (r: Result<
    NightEffect,
    GameError,
>)
    ensures
        tells(old(game)@, NightStep::Ravenkeeper { seat }, Some(*payload), final(game)@, r),
{
    reveal(GameView::night_info);
    match payload {
        NightActionPayload::PickOne { target } => {
            let shown = if seat_disabled(game, seat) {
                let mut rng = night_rng(game, "ravenkeeper_lie:c");
                random_pool_character(&mut rng)
            } else {
                // True character token (Drunk → Drunk; Spy → Spy).
                match find_seat(&game.seats, *target) {
                    Some(i) => match game.seats[i].true_character {
                        Some(c) => c,
                        None => Character::Soldier,
                    },
                    None => Character::Soldier,
                }
            };
            let mut text = "Ravenkeeper: ".to_owned();
            text.append(format_seat(game, *target).as_str());
            text.append(" is the ");
            text.append(shown.display_name());
            text.append(".");
            Ok(push_result(game, seat, text))
        },
        _ => Err(GameError::WrongPayload),
    }
}

fn random_pool_character(rng: &mut Substream) -> (c: Character)
    ensures
        c == full_pool()[old(rng).choice(full_pool().len()).0],
{
    let pool = all_characters();
    pool[rng.pick(pool.len())]
}

} // verus!
