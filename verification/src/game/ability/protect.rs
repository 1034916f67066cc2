//! Monk protection and passive Demon-kill immunities (Soldier).

use crate::game::ids::SeatId;
use crate::game::seat::{find_seat, seat_of, with_seat, Seat};
use crate::game::state::{Game, GameView};
use crate::roles::Character;
use vstd::prelude::*;

verus! {

/// The seat has active Monk protection tonight.
pub open spec fn monk_protected(seats: Seq<Seat>, id: SeatId) -> bool {
    seat_of(seats, id) matches Some(s) && s.monk_protected_tonight
}

/// The seat is a living true Soldier whose ability works.
pub open spec fn soldier_immune(seats: Seq<Seat>, id: SeatId) -> bool {
    seat_of(seats, id) matches Some(s) && s.alive && s.true_character == Some(Character::Soldier)
        && !s.disabled()
}

/// A demon attack would kill this seat: it is alive and nothing shields it.
pub open spec fn demon_killable(seats: Seq<Seat>, id: SeatId) -> bool {
    &&& seat_of(seats, id) matches Some(s) && s.alive
    &&& !monk_protected(seats, id)
    &&& !soldier_immune(seats, id)
}

impl GameView {
    /// The first seat of this id is under the Monk's protection.
    pub open spec fn monk_shielded(self, target: SeatId) -> GameView {
        match seat_of(self.seats, target) {
            Some(s) => GameView {
                seats: with_seat(self.seats, target, Seat { monk_protected_tonight: true, ..s }),
                ..self
            },
            None => self,
        }
    }

    /// No seat is under the Monk's protection.
    pub open spec fn unshielded(self) -> GameView {
        GameView {
            seats: self.seats.map_values(|s: Seat| Seat { monk_protected_tonight: false, ..s }),
            ..self
        }
    }
}

/// True if the seat has active Monk protection for tonight's demon attack.
pub fn is_monk_protected(game: &Game, seat: SeatId) -> (b: bool)
    ensures
        b == monk_protected(game@.seats, seat),
{
    match find_seat(&game.seats, seat) {
        Some(i) => game.seats[i].monk_protected_tonight,
        None => false,
    }
}

/// True if the seat is a living true Soldier whose ability is not disabled.
pub fn is_soldier_immune(game: &Game, seat: SeatId) -> (b: bool)
    ensures
        b == soldier_immune(game@.seats, seat),
{
    match find_seat(&game.seats, seat) {
        Some(i) => {
            let s = &game.seats[i];
            s.alive && s.true_character == Some(Character::Soldier) && !s.ability_disabled()
        },
        None => false,
    }
}

/// Apply Monk protect to a living other seat (caller already checked Monk not disabled).
pub fn apply_monk_protect(game: &mut Game, target: SeatId)
    ensures
        final(game)@ == old(game)@.monk_shielded(target),
{
    if let Some(i) = find_seat(&game.seats, target) {
        game.seats[i].monk_protected_tonight = true;
    }
}

/// Clear all monk protection markers (dawn).
#[verifier::loop_isolation(false)]
pub fn clear_monk_protection(game: &mut Game)
    ensures
        final(game)@ == old(game)@.unshielded(),
{
    let ghost before = game@;
    let mut i: usize = 0;
    while i < game.seats.len()
        invariant
            i <= game.seats.len(),
            game.seats.len() == before.seats.len(),
            game@ == (GameView { seats: game@.seats, ..before }),
            forall|k: int|
                0 <= k < game.seats.len() ==> #[trigger] game@.seats[k] == (if k < i {
                    Seat { monk_protected_tonight: false, ..before.seats[k] }
                } else {
                    before.seats[k]
                }),
        decreases game.seats.len() - i,
    {
        game.seats[i].monk_protected_tonight = false;
        i += 1;
    }
    assert(game@.seats =~= before.unshielded().seats);
}

/// Whether a living seat is a legal Mayor-bounce victim (not soldier/monk protected).
pub fn is_demon_killable(game: &Game, seat: SeatId) -> (b: bool)
    ensures
        b == demon_killable(game@.seats, seat),
{
    match find_seat(&game.seats, seat) {
        Some(i) => {
            if !game.seats[i].alive {
                return false;
            }
        },
        None => return false,
    }
    if is_monk_protected(game, seat) {
        return false;
    }
    if is_soldier_immune(game, seat) {
        return false;
    }
    true
}

} // verus!
