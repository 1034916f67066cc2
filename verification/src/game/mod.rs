//! Authoritative game state machine.

pub mod ability;
pub mod day;
pub mod day_laws;
pub mod host;
pub mod host_laws;
pub mod ids;
pub mod laws;
pub mod night;
pub mod night_laws;
pub mod phase;
pub mod seat;
pub mod setup;
pub mod st_policy;
pub mod start;
pub mod start_laws;
pub mod state;
pub mod table_laws;
pub mod win;

pub use crate::error::GameError;
pub use day::{ClosedNomination, OpenNomination};
pub use ids::{GameId, SeatId};
pub use night::{ChoiceSchema, NightActionPayload, PendingWake};
pub use phase::{DayStage, EndReason, NightStep, Phase, Winner};
pub use seat::Seat;
pub use setup::{BagResult, Composition, StartOpts};
pub use st_policy::{
    HostDecision, MayorRedirectChoice, NightInfoPayload, PendingHostDecision, RegistrationMode,
    StChoiceMode,
};
pub use state::{
    CreateGameResult, Game, Lobby, PublicSeatView, RoleAssignment, DIRECTED_SAY_CAP, MAX_PLAYERS,
    MIN_PLAYERS,
};
