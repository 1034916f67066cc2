//! Engine and tool error types (safe for client-facing messages).

use vstd::prelude::*;
use vstd::string::*;

verus! {

/// Authoritative game-engine failures (phase, legality, seats, etc.).
#[derive(Debug, Clone, Copy, PartialEq, Eq)]
pub enum GameError {
    NoSuchSeat,
    Unauthorized,
    WrongPhase,
    GameEnded,
    IllegalAction(&'static str),
    NotYourWake,
    /// The submitted night choice does not have the shape that the wake asks for.
    WrongPayload,
    BadRequest(&'static str),
}

impl GameError {
    /// Client-facing wording of the error.
    pub open spec fn wording(self) -> Seq<char> {
        match self {
            GameError::NoSuchSeat => "no such seat"@,
            GameError::Unauthorized => "unauthorized"@,
            GameError::WrongPhase => "wrong phase"@,
            GameError::GameEnded => "game ended"@,
            GameError::IllegalAction(why) => "illegal action: "@ + why@,
            GameError::NotYourWake => "not your wake"@,
            GameError::WrongPayload => "wrong payload"@,
            GameError::BadRequest(why) => "bad request: "@ + why@,
        }
    }

    pub fn message(&self) -> (s: String)
        ensures
            s@ == self.wording(),
    {
        match self {
            GameError::NoSuchSeat => "no such seat".to_owned(),
            GameError::Unauthorized => "unauthorized".to_owned(),
            GameError::WrongPhase => "wrong phase".to_owned(),
            GameError::GameEnded => "game ended".to_owned(),
            GameError::IllegalAction(why) => "illegal action: ".to_owned().concat(why),
            GameError::NotYourWake => "not your wake".to_owned(),
            GameError::WrongPayload => "wrong payload".to_owned(),
            GameError::BadRequest(why) => "bad request: ".to_owned().concat(why),
        }
    }
}

/// Errors returned to the MCP client (safe strings; no other seats' secrets).
#[derive(Debug, Clone, Copy, PartialEq, Eq)]
pub enum ToolError {
    Unauthorized,
    Game(GameError),
    BadRequest(&'static str),
}

impl ToolError {
    /// Client-facing wording of the error.
    pub open spec fn wording(self) -> Seq<char> {
        match self {
            ToolError::Unauthorized => "unauthorized"@,
            ToolError::Game(e) => e.wording(),
            ToolError::BadRequest(why) => "bad request: "@ + why@,
        }
    }

    pub fn message(&self) -> (s: String)
        ensures
            s@ == self.wording(),
    {
        match self {
            ToolError::Unauthorized => "unauthorized".to_owned(),
            ToolError::Game(e) => e.message(),
            ToolError::BadRequest(why) => "bad request: ".to_owned().concat(why),
        }
    }
}

} // verus!
