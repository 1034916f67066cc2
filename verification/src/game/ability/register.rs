//! Spy / Recluse registration draws.

use crate::game::ability::info::holders_of_type;
use crate::game::ids::SeatId;
use crate::game::seat::{find_seat, seat_of, Seat};
use crate::game::st_policy::RegistrationMode;
use crate::game::state::{Game, GameView};
use crate::game::win::first_where;
use crate::rng::Substream;
use crate::roles::{team_of, type_of, Character, CharacterType, Team};
use vstd::prelude::*;

verus! {

impl GameView {
    /// Whether a Spy or Recluse shows as something it is not for this detection: a fair coin of
    /// the labeled substream, or as the registration mode says (a disabled one never does when
    /// the mode asks for misregistration throughout).
    pub open spec fn misregisters(self, s: Seat, label: Seq<char>) -> bool {
        match self.registration_mode {
            RegistrationMode::Random => self.rng.stream(label).coin(1, 2).0,
            RegistrationMode::AlwaysTrue => false,
            RegistrationMode::AlwaysMisreg => !s.disabled(),
        }
    }

    /// The seat shows as evil: Recluse and Spy may show the other alignment.
    pub open spec fn registers_evil(self, seat: SeatId, label: Seq<char>) -> bool {
        match seat_of(self.seats, seat) {
            Some(s) => match s.true_character {
                Some(Character::Recluse) => self.misregisters(s, label),
                Some(Character::Spy) => !self.misregisters(s, label),
                Some(other) => team_of(other) == Team::Evil,
                None => false,
            },
            None => false,
        }
    }

    /// The seat shows as the Demon: the Imp always, the Recluse perhaps, nobody else.
    pub open spec fn registers_demon(self, seat: SeatId, label: Seq<char>) -> bool {
        match seat_of(self.seats, seat) {
            Some(s) => match s.true_character {
                Some(Character::Imp) => true,
                Some(Character::Recluse) => self.misregisters(s, label),
                _ => false,
            },
            None => false,
        }
    }

    /// The seat shows as a Townsfolk: true Townsfolk always, the Spy perhaps, nobody else.
    pub open spec fn registers_townsfolk(self, seat: SeatId, label: Seq<char>) -> bool {
        match seat_of(self.seats, seat) {
            Some(s) => match s.true_character {
                Some(Character::Spy) => self.misregisters(s, label),
                Some(other) => type_of(other) == CharacterType::Townsfolk,
                None => false,
            },
            None => false,
        }
    }
}

fn misregister(game: &Game, seat: &Seat, label: &str) -> (b: bool)
    ensures
        b == game@.misregisters(*seat, label@),
{
    match game.registration_mode {
        RegistrationMode::Random => {
            let mut rng = game.rng.substream(label);
            rng.gen_ratio(1, 2)
        },
        RegistrationMode::AlwaysTrue => false,
        RegistrationMode::AlwaysMisreg => !seat.ability_disabled(),
    }
}

/// Whether `seat` registers as **evil** for Empath / Chef this detection.
///
/// - Recluse (good): evil with p=0.5
/// - Spy (evil): good with p=0.5 (hence evil with p=0.5)
/// - Others: true alignment
///
/// The odds are those of [`RegistrationMode::Random`]; the other modes fix the outcome.
pub fn register_evil(game: &Game, seat: SeatId, event_label: &str) -> (b: bool)
    ensures
        b == game@.registers_evil(seat, event_label@),
{
    match find_seat(&game.seats, seat) {
        Some(i) => match game.seats[i].true_character {
            Some(Character::Recluse) => misregister(game, &game.seats[i], event_label),
            Some(Character::Spy) => !misregister(game, &game.seats[i], event_label),
            Some(other) => other.team() == Team::Evil,
            None => false,
        },
        None => false,
    }
}

/// Whether `seat` pings the Fortune Teller as Demon (excluding red herring).
///
/// - True Demon: always
/// - Recluse: demon with p=0.5
/// - Spy: never
///
/// The odds are those of [`RegistrationMode::Random`]; the other modes fix the outcome.
pub fn register_demon_for_ft(game: &Game, seat: SeatId, event_label: &str) -> (b: bool)
    ensures
        b == game@.registers_demon(seat, event_label@),
{
    match find_seat(&game.seats, seat) {
        Some(i) => match game.seats[i].true_character {
            Some(Character::Imp) => true,
            Some(Character::Recluse) => misregister(game, &game.seats[i], event_label),
            _ => false,
        },
        None => false,
    }
}

/// Whether `seat` registers as a Townsfolk for the Virgin (the Spy may).
pub fn registers_as_townsfolk(game: &Game, seat: SeatId, event_label: &str) -> (b: bool)
    ensures
        b == game@.registers_townsfolk(seat, event_label@),
{
    match find_seat(&game.seats, seat) {
        Some(i) => match game.seats[i].true_character {
            Some(Character::Spy) => misregister(game, &game.seats[i], event_label),
            Some(other) => other.character_type() == CharacterType::Townsfolk,
            None => false,
        },
        None => false,
    }
}

/// Everyone but the Spy and the Recluse registers as what they are, whatever the draw.
pub proof fn ordinary_seats_register_true(game: GameView, seat: SeatId, label: Seq<char>)
    requires
        seat_of(game.seats, seat) matches Some(s) && (s.true_character matches Some(c) && c
            != Character::Spy && c != Character::Recluse),
    ensures
        seat_of(game.seats, seat)->0.true_character matches Some(c) && (game.registers_evil(
            seat,
            label,
        ) <==> team_of(c) == Team::Evil) && (game.registers_demon(seat, label) <==> c
            == Character::Imp) && (game.registers_townsfolk(seat, label) <==> type_of(c)
            == CharacterType::Townsfolk),
{
}

/// Under the mode that never misregisters, the Spy and the Recluse too show what they are, and
/// pair information knows the true holders alone.
pub proof fn always_true_never_misregisters(
    game: GameView,
    seat: SeatId,
    label: Seq<char>,
    ty: CharacterType,
    pool: Seq<Character>,
    rng: Substream,
)
    requires
        game.registration_mode == RegistrationMode::AlwaysTrue,
        seat_of(game.seats, seat) matches Some(s) && s.true_character is Some,
    ensures
        game.pair_owners(ty, pool, rng) == (holders_of_type(game.seats, ty), rng),
        seat_of(game.seats, seat)->0.true_character matches Some(c) && (game.registers_evil(
            seat,
            label,
        ) <==> team_of(c) == Team::Evil) && (game.registers_demon(seat, label) <==> c
            == Character::Imp) && (game.registers_townsfolk(seat, label) <==> type_of(c)
            == CharacterType::Townsfolk),
{
}

/// Under the mode that always misregisters, a Spy or Recluse whose ability works shows the other
/// alignment, the Recluse shows as the Demon and the Spy as a Townsfolk; one that is disabled shows
/// what it is.
pub proof fn always_misreg_goes_by_the_ability(game: GameView, seat: SeatId, label: Seq<char>)
    requires
        game.registration_mode == RegistrationMode::AlwaysMisreg,
        seat_of(game.seats, seat) matches Some(s) && (s.true_character == Some(Character::Spy)
            || s.true_character == Some(Character::Recluse)),
    ensures
        ({
            let s = seat_of(game.seats, seat)->0;
            let spy = s.true_character == Some(Character::Spy);
            &&& game.registers_evil(seat, label) == (spy == s.disabled())
            &&& game.registers_demon(seat, label) == (!spy && !s.disabled())
            &&& game.registers_townsfolk(seat, label) == (spy && !s.disabled())
        }),
{
}

/// Under the mode that always misregisters, the Spy is among the owners of Townsfolk pair
/// information exactly if its ability works: they are then one more than the true holders.
pub proof fn a_working_spy_always_hides(
    game: GameView,
    i: int,
    pool: Seq<Character>,
    rng: Substream,
)
    requires
        game.registration_mode == RegistrationMode::AlwaysMisreg,
        first_where(game.seats, |s: Seat| s.true_character == Some(Character::Spy)) == Some(i),
    ensures
        ({
            let holders = holders_of_type(game.seats, CharacterType::Townsfolk);
            let owners = game.pair_owners(CharacterType::Townsfolk, pool, rng).0;
            if game.seats[i].disabled() {
                owners == holders
            } else {
                &&& owners.len() == holders.len() + 1
                &&& owners.drop_last() == holders
                &&& owners.last().0 == game.seats[i].id
            }
        }),
{
    let holders = holders_of_type(game.seats, CharacterType::Townsfolk);
    let owners = game.pair_owners(CharacterType::Townsfolk, pool, rng).0;
    if !game.seats[i].disabled() {
        assert(owners.drop_last() =~= holders);
    }
}

} // verus!
