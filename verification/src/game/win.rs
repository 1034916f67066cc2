//! Win condition checks.

use crate::comms::{PrivateMessage, PrivateMessageView, PublicEvent, PublicEventView};
use crate::game::phase::{EndReason, Phase, Winner};
use crate::game::seat::{count_living, head_count, Seat};
use crate::game::state::{team_of_winner, Game, GameView};
use crate::roles::data::{name_of, rules_path_of};
use crate::roles::{Character, Team};
use vstd::prelude::*;
use vstd::string::*;

verus! {

/// With at least this many alive when the Demon dies, the Scarlet Woman takes over.
pub const SCARLET_WOMAN_LIVING: u32 = 5;

/// A living seat whose true character is the Imp.
pub open spec fn living_imp(s: Seat) -> bool {
    s.alive && s.true_character == Some(Character::Imp)
}

/// A living Scarlet Woman whose ability works.
pub open spec fn ready_scarlet_woman(s: Seat) -> bool {
    s.alive && s.true_character == Some(Character::ScarletWoman) && !s.disabled()
}

/// Index of the first seat that satisfies `wanted`.
pub open spec fn first_where(seats: Seq<Seat>, wanted: spec_fn(Seat) -> bool) -> Option<int>
    decreases seats.len(),
{
    if seats.len() == 0 {
        None
    } else {
        match first_where(seats.drop_last(), wanted) {
            Some(i) => Some(i),
            None => if wanted(seats.last()) { Some(seats.len() - 1) } else { None },
        }
    }
}

/// The index points at the first seat wanted; there is one exactly when some seat is wanted.
pub proof fn first_where_is_first(seats: Seq<Seat>, wanted: spec_fn(Seat) -> bool)
    ensures
        match first_where(seats, wanted) {
            Some(i) => 0 <= i < seats.len() && wanted(seats[i]) && (forall|k: int|
                0 <= k < i ==> !wanted(#[trigger] seats[k])),
            None => forall|k: int| 0 <= k < seats.len() ==> !wanted(#[trigger] seats[k]),
        },
    decreases seats.len(),
{
    if seats.len() > 0 {
        let front = seats.drop_last();
        first_where_is_first(front, wanted);
        match first_where(front, wanted) {
            Some(i) => {
                assert(front[i] == seats[i]);
                assert forall|k: int| 0 <= k < i implies !wanted(#[trigger] seats[k]) by {
                    assert(front[k] == seats[k]);
                }
            },
            None => {
                assert forall|k: int| 0 <= k < seats.len() - 1 implies !wanted(
                    #[trigger] seats[k],
                ) by {
                    assert(front[k] == seats[k]);
                }
            },
        }
    }
}

/// The private message to a seat that becomes the Imp.
pub open spec fn you_are_the_imp() -> PrivateMessageView {
    PrivateMessageView::YouAre {
        character_label: name_of(Character::Imp),
        team: Team::Evil,
        rules_path: rules_path_of(Character::Imp),
        note: Some("You are now the Imp."@),
    }
}

/// A seat once it has become the Imp.
pub open spec fn turned_imp(s: Seat) -> Seat {
    Seat {
        true_character: Some(Character::Imp),
        believed_character: None,
        is_drunk_outsider: false,
        ..s
    }
}

impl GameView {
    /// Some living seat is the Imp.
    pub open spec fn imp_lives(self) -> bool {
        first_where(self.seats, |s: Seat| living_imp(s)) is Some
    }

    /// The game is over with this winner.
    pub open spec fn ended(self, winner: Winner, reason: EndReason) -> GameView {
        GameView {
            winner: Some(winner),
            phase: Phase::Ended { winner, reason },
            pending_night: None,
            ..self
        }.publish(PublicEventView::GameEnded { winner: team_of_winner(winner) })
    }

    /// Good wins once no Imp is alive; a decided game stays decided.
    #[verifier::opaque]
    pub open spec fn win_checked(self) -> GameView {
        if self.over() || self.imp_lives() {
            self
        } else {
            self.ended(Winner::Good, EndReason::DemonDead)
        }
    }

    /// After the Demon died: with five or more alive before, a working Scarlet Woman becomes
    /// the Imp.
    #[verifier::opaque]
    pub open spec fn demon_succeeded(self, alive_before: u32) -> GameView {
        match first_where(self.seats, |s: Seat| ready_scarlet_woman(s)) {
            Some(i) => if alive_before >= SCARLET_WOMAN_LIVING {
                GameView {
                    seats: self.seats.update(i, turned_imp(self.seats[i])),
                    ..self
                }.whisper(self.seats[i].id, you_are_the_imp())
            } else {
                self
            },
            None => self,
        }
    }
}

/// The message of [`you_are_the_imp`].
pub fn imp_notice() -> (m: PrivateMessage)
    ensures
        m@ == you_are_the_imp(),
{
    PrivateMessage::YouAre {
        character_label: Character::Imp.display_name().to_owned(),
        team: Team::Evil,
        rules_path: Character::Imp.rules_doc_path().to_owned(),
        note: Some("You are now the Imp.".to_owned()),
    }
}

/// Number of living seats.
pub fn living_count(game: &Game) -> (n: u32)
    ensures
        n == head_count(game@.seats),
{
    count_living(&game.seats)
}

/// Whether some living seat is the Imp.
#[verifier::loop_isolation(false)]
pub fn has_living_imp(game: &Game) -> (b: bool)
    ensures
        b == game@.imp_lives(),
{
    let ghost wanted = |s: Seat| living_imp(s);
    proof {
        first_where_is_first(game@.seats, wanted);
    }
    let mut i: usize = 0;
    while i < game.seats.len()
        invariant
            i <= game.seats.len(),
            wanted == (|s: Seat| living_imp(s)),
            forall|k: int| 0 <= k < i ==> !wanted(#[trigger] game@.seats[k]),
        decreases game.seats.len() - i,
    {
        let s = &game.seats[i];
        if s.alive && s.true_character == Some(Character::Imp) {
            assert(wanted(game@.seats[i as int]));
            return true;
        }
        i += 1;
    }
    false
}

/// Decide the game.
pub fn end_game(game: &mut Game, winner: Winner, reason: EndReason)
    ensures
        final(game)@ == old(game)@.ended(winner, reason),
{
    game.winner = Some(winner);
    game.phase = Phase::Ended { winner, reason };
    game.pending_night = None;
    game.public_log.push(PublicEvent::GameEnded { winner: Team::from(winner) });
}

/// Check win conditions after a kill chain / execution: Good wins when no Imp is alive.
pub fn win_check(game: &mut Game) -> (w: Option<Winner>)
    ensures
        final(game)@ == old(game)@.win_checked(),
        w == final(game)@.winner,
{
    reveal(GameView::win_checked);
    if game.winner.is_some() {
        return game.winner;
    }
    if game.phase.is_ended() {
        return game.winner;
    }
    if !has_living_imp(game) {
        end_game(game, Winner::Good, EndReason::DemonDead);
        return Some(Winner::Good);
    }
    None
}

/// A Demon died (`alive_before` counts it): the Scarlet Woman may become the Imp.
#[verifier::loop_isolation(false)]
pub fn apply_demon_death(game: &mut Game, alive_before: u32)
    ensures
        final(game)@ == old(game)@.demon_succeeded(alive_before),
{
    reveal(GameView::demon_succeeded);
    let ghost wanted = |s: Seat| ready_scarlet_woman(s);
    proof {
        first_where_is_first(game@.seats, wanted);
    }
    if alive_before < SCARLET_WOMAN_LIVING {
        return;
    }
    let mut i: usize = 0;
    while i < game.seats.len()
        invariant
            i <= game.seats.len(),
            game@ == old(game)@,
            forall|k: int| 0 <= k < i ==> !wanted(#[trigger] game@.seats[k]),
        decreases game.seats.len() - i,
    {
        let s = &game.seats[i];
        if s.alive && s.true_character == Some(Character::ScarletWoman) && !s.ability_disabled() {
            assert(wanted(game@.seats[i as int]));
            assert(first_where(game@.seats, wanted) == Some(i as int));
            let id = s.id;
            game.seats[i].true_character = Some(Character::Imp);
            game.seats[i].believed_character = None;
            game.seats[i].is_drunk_outsider = false;
            assert(game@.seats =~= old(game)@.seats.update(
                i as int,
                turned_imp(old(game)@.seats[i as int]),
            ));
            game.private_inboxes.push(id, imp_notice());
            return;
        }
        i += 1;
    }
}

} // verus!
