//! Coarse phase machine and night step identities.

use vstd::prelude::*;
use crate::game::ids::SeatId;
use crate::text::{dec, numbered, push_dec};
use vstd::string::*;

verus! {

#[derive(Debug, Clone, Copy, PartialEq, Eq, Structural)]
pub enum DayStage {
    Discussion,
    Nominations,
}

#[derive(Debug, Clone, Copy, PartialEq, Eq, Structural)]
pub enum Winner {
    Good,
    Evil,
}

#[derive(Debug, Clone, Copy, PartialEq, Eq, Structural)]
pub enum EndReason {
    DemonDead,
    EvilTwoAlive,
    SaintExecuted,
    MayorThreeNoExec,
}

#[derive(Debug, Clone, Copy, PartialEq, Eq, Structural)]
pub enum Phase {
    Lobby,
    /// First night; `cursor` indexes into the night queue.
    FirstNight { cursor: usize },
    Day { day: u32, stage: DayStage },
    /// Subsequent nights (`night >= 2`); `cursor` indexes into the night queue.
    Night { night: u32, cursor: usize },
    Ended { winner: Winner, reason: EndReason },
}

impl Phase {
    /// Whether a night is in progress.
    pub open spec fn night_falls(self) -> bool {
        self is FirstNight || self is Night
    }

    /// Whether a night is in progress.
    pub fn is_night(&self) -> (r: bool)
        ensures
            r == self.night_falls(),
    {
        matches!(self, Phase::FirstNight { .. } | Phase::Night { .. })
    }

    /// Whether the game is over.
    pub fn is_ended(&self) -> (r: bool)
        ensures
            r == (*self is Ended),
    {
        matches!(self, Phase::Ended { .. })
    }

    /// The phase with its night cursor moved to `cursor`; other phases have none.
    pub open spec fn at_cursor(self, cursor: usize) -> Phase {
        match self {
            Phase::FirstNight { .. } => Phase::FirstNight { cursor },
            Phase::Night { night, .. } => Phase::Night { night, cursor },
            _ => self,
        }
    }

    /// Night queue cursor when in FirstNight / Night; otherwise `None`.
    pub fn cursor_if_night(&self) -> (r: Option<usize>)
        ensures
            r == match *self {
                Phase::FirstNight { cursor } => Some(cursor),
                Phase::Night { cursor, .. } => Some(cursor),
                _ => None,
            },
    {
        match self {
            Phase::FirstNight { cursor } => Some(*cursor),
            Phase::Night { cursor, .. } => Some(*cursor),
            _ => None,
        }
    }
}

/// One concrete wake / Storyteller step in a built night queue.
#[derive(Debug, Clone, Copy, PartialEq, Eq, Structural)]
pub enum NightStep {
    /// Setup markers are already applied at start; nobody is waited for.
    SetupMarkers,
    /// Evil learns each other (n >= 7).
    MinionBriefing,
    /// Imp learns minions + bluffs (n >= 7).
    DemonBriefing,
    Poisoner { seat: SeatId },
    Spy { seat: SeatId },
    Washerwoman { seat: SeatId },
    Librarian { seat: SeatId },
    Investigator { seat: SeatId },
    Chef { seat: SeatId },
    Empath { seat: SeatId },
    FortuneTeller { seat: SeatId },
    Butler { seat: SeatId },
    Monk { seat: SeatId },
    /// Imp chooses a kill target (not on first night).
    DemonKill { seat: SeatId },
    Ravenkeeper { seat: SeatId },
    Undertaker { seat: SeatId },
    Dawn,
}

/// `Good` / `Evil`.
pub open spec fn winner_word(w: Winner) -> Seq<char> {
    match w {
        Winner::Good => "Good"@,
        Winner::Evil => "Evil"@,
    }
}

/// `Good` / `Evil`.
pub fn winner_name(w: Winner) -> (s: &'static str)
    ensures
        s@ == winner_word(w),
{
    match w {
        Winner::Good => "Good",
        Winner::Evil => "Evil",
    }
}

/// The name of an end reason.
pub open spec fn reason_word(r: EndReason) -> Seq<char> {
    match r {
        EndReason::DemonDead => "DemonDead"@,
        EndReason::EvilTwoAlive => "EvilTwoAlive"@,
        EndReason::SaintExecuted => "SaintExecuted"@,
        EndReason::MayorThreeNoExec => "MayorThreeNoExec"@,
    }
}

/// The name of an end reason.
pub fn reason_name(r: EndReason) -> (s: &'static str)
    ensures
        s@ == reason_word(r),
{
    match r {
        EndReason::DemonDead => "DemonDead",
        EndReason::EvilTwoAlive => "EvilTwoAlive",
        EndReason::SaintExecuted => "SaintExecuted",
        EndReason::MayorThreeNoExec => "MayorThreeNoExec",
    }
}

/// The name of a day stage.
pub open spec fn stage_word(stage: DayStage) -> Seq<char> {
    match stage {
        DayStage::Discussion => "Discussion"@,
        DayStage::Nominations => "Nominations"@,
    }
}

/// The name of a day stage.
pub fn stage_name(stage: DayStage) -> (s: &'static str)
    ensures
        s@ == stage_word(stage),
{
    match stage {
        DayStage::Discussion => "Discussion",
        DayStage::Nominations => "Nominations",
    }
}

/// A phase as the views print it: the variant with its fields.
pub open spec fn phase_notation(phase: Phase) -> Seq<char> {
    match phase {
        Phase::Lobby => "Lobby"@,
        Phase::FirstNight { cursor } => "FirstNight { cursor: "@ + dec(cursor as nat) + " }"@,
        Phase::Day { day, stage } => "Day { day: "@ + dec(day as nat) + ", stage: "@ + stage_word(
            stage,
        ) + " }"@,
        Phase::Night { night, cursor } => "Night { night: "@ + dec(night as nat) + ", cursor: "@
            + dec(cursor as nat) + " }"@,
        Phase::Ended { winner, reason } => "Ended { winner: "@ + winner_word(winner)
            + ", reason: "@ + reason_word(reason) + " }"@,
    }
}

/// A phase as the views print it.
pub fn phase_string(phase: &Phase) -> (s: String)
    ensures
        s@ == phase_notation(*phase),
{
    match phase {
        Phase::Lobby => "Lobby".to_owned(),
        Phase::FirstNight { cursor } => {
            let mut s = numbered("FirstNight { cursor: ", *cursor as u64);
            s.append(" }");
            s
        },
        Phase::Day { day, stage } => {
            let mut s = numbered("Day { day: ", *day as u64);
            s.append(", stage: ");
            s.append(stage_name(*stage));
            s.append(" }");
            s
        },
        Phase::Night { night, cursor } => {
            let mut s = numbered("Night { night: ", *night as u64);
            s.append(", cursor: ");
            push_dec(&mut s, *cursor as u64);
            s.append(" }");
            s
        },
        Phase::Ended { winner, reason } => {
            let mut s = "Ended { winner: ".to_owned();
            s.append(winner_name(*winner));
            s.append(", reason: ");
            s.append(reason_name(*reason));
            s.append(" }");
            s
        },
    }
}

/// The variant of a step that acts on a seat, with that seat.
pub open spec fn step_variant(step: NightStep) -> (Seq<char>, Option<SeatId>) {
    match step {
        NightStep::SetupMarkers => ("SetupMarkers"@, None),
        NightStep::MinionBriefing => ("MinionBriefing"@, None),
        NightStep::DemonBriefing => ("DemonBriefing"@, None),
        NightStep::Poisoner { seat } => ("Poisoner"@, Some(seat)),
        NightStep::Spy { seat } => ("Spy"@, Some(seat)),
        NightStep::Washerwoman { seat } => ("Washerwoman"@, Some(seat)),
        NightStep::Librarian { seat } => ("Librarian"@, Some(seat)),
        NightStep::Investigator { seat } => ("Investigator"@, Some(seat)),
        NightStep::Chef { seat } => ("Chef"@, Some(seat)),
        NightStep::Empath { seat } => ("Empath"@, Some(seat)),
        NightStep::FortuneTeller { seat } => ("FortuneTeller"@, Some(seat)),
        NightStep::Butler { seat } => ("Butler"@, Some(seat)),
        NightStep::Monk { seat } => ("Monk"@, Some(seat)),
        NightStep::DemonKill { seat } => ("DemonKill"@, Some(seat)),
        NightStep::Ravenkeeper { seat } => ("Ravenkeeper"@, Some(seat)),
        NightStep::Undertaker { seat } => ("Undertaker"@, Some(seat)),
        NightStep::Dawn => ("Dawn"@, None),
    }
}

fn step_parts(step: NightStep) -> (r: (&'static str, Option<SeatId>))
    ensures
        (r.0@, r.1) == step_variant(step),
{
    match step {
        NightStep::SetupMarkers => ("SetupMarkers", None),
        NightStep::MinionBriefing => ("MinionBriefing", None),
        NightStep::DemonBriefing => ("DemonBriefing", None),
        NightStep::Poisoner { seat } => ("Poisoner", Some(seat)),
        NightStep::Spy { seat } => ("Spy", Some(seat)),
        NightStep::Washerwoman { seat } => ("Washerwoman", Some(seat)),
        NightStep::Librarian { seat } => ("Librarian", Some(seat)),
        NightStep::Investigator { seat } => ("Investigator", Some(seat)),
        NightStep::Chef { seat } => ("Chef", Some(seat)),
        NightStep::Empath { seat } => ("Empath", Some(seat)),
        NightStep::FortuneTeller { seat } => ("FortuneTeller", Some(seat)),
        NightStep::Butler { seat } => ("Butler", Some(seat)),
        NightStep::Monk { seat } => ("Monk", Some(seat)),
        NightStep::DemonKill { seat } => ("DemonKill", Some(seat)),
        NightStep::Ravenkeeper { seat } => ("Ravenkeeper", Some(seat)),
        NightStep::Undertaker { seat } => ("Undertaker", Some(seat)),
        NightStep::Dawn => ("Dawn", None),
    }
}

/// A step as the host view prints it: the variant with its seat.
pub open spec fn step_notation(step: NightStep) -> Seq<char> {
    let (name, seat) = step_variant(step);
    match seat {
        Some(id) => name + " { seat: SeatId("@ + dec(id.0 as nat) + ") }"@,
        None => name,
    }
}

/// A step as the host view prints it.
pub fn step_string(step: NightStep) -> (s: String)
    ensures
        s@ == step_notation(step),
{
    let (name, seat) = step_parts(step);
    let mut s = name.to_owned();
    if let Some(id) = seat {
        s.append(" { seat: SeatId(");
        push_dec(&mut s, id.0 as u64);
        s.append(") }");
    }
    s
}

} // verus!
