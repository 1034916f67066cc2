//! Night ability dispatch and resolution.

use crate::comms::{PrivateMessage, PrivateMessageView};
use crate::error::GameError;
use crate::game::ids::SeatId;
use crate::game::night::NightActionPayload;
use crate::game::phase::NightStep;
use crate::game::state::Game;
use vstd::prelude::*;

pub mod evil;
pub mod info;
pub mod info_laws;
pub mod kill_laws;
pub mod lie_laws;
pub mod protect;
pub mod register;
pub mod register_laws;

use info::opt_payload;

pub use info::empath_true_count;
pub use evil::{apply_poison, clear_poisons, on_poisoner_left_play, try_demon_kill, KillResult};

verus! {

/// Result of resolving a night step (private side-effects already applied to the game).
#[derive(Debug)]
pub struct NightEffect {
    pub private: Vec<(SeatId, PrivateMessage)>,
}

impl View for NightEffect {
    type V = Seq<(SeatId, PrivateMessageView)>;

    open spec fn view(&self) -> Seq<(SeatId, PrivateMessageView)> {
        self.private@.map_values(|e: (SeatId, PrivateMessage)| (e.0, e.1@))
    }
}

/// Resolve a night step that is either automatic info or a submitted player choice.
///
/// Applies private messages and seat mutations (e.g. Butler master) on `game`.
/// Does not advance the night cursor or clear pending wakes.
pub fn resolve_night_step(
    game: &mut Game,
    step: NightStep,
    payload: Option<&NightActionPayload>,
) -> (r: Result<NightEffect, GameError>)
    ensures
        match old(game)@.informed(step, opt_payload(payload)) {
            Ok((g, told)) => r matches Ok(effect) && effect@ == told && final(game)@ == g,
            Err(e) => r == Err::<NightEffect, GameError>(e) && final(game)@ == old(game)@,
        },
{
    info::resolve(game, step, payload)
}

} // verus!
