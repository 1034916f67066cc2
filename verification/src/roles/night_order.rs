//! Trouble Brewing night order templates (role presence filtered when building a queue).
//!
//! Concrete seats are filled in by [`crate::game::night`].

use vstd::prelude::*;
use crate::roles::Character;

verus! {

/// First-night character wakes (after setup/briefings).
#[derive(Debug, Clone, Copy, PartialEq, Eq, Structural)]
pub enum FirstNightSlot {
    Poisoner,
    Spy,
    Washerwoman,
    Librarian,
    Investigator,
    Chef,
    Empath,
    FortuneTeller,
    Butler,
}

/// First-night character wakes in sheet order.
pub open spec fn first_night_sheet() -> Seq<FirstNightSlot> {
    seq![
        FirstNightSlot::Poisoner,
        FirstNightSlot::Spy,
        FirstNightSlot::Washerwoman,
        FirstNightSlot::Librarian,
        FirstNightSlot::Investigator,
        FirstNightSlot::Chef,
        FirstNightSlot::Empath,
        FirstNightSlot::FortuneTeller,
        FirstNightSlot::Butler,
    ]
}

/// First-night character wakes in sheet order.
pub fn first_night_order() -> (v: Vec<FirstNightSlot>)
    ensures
        v@ == first_night_sheet(),
{
    let v = vec![
        FirstNightSlot::Poisoner,
        FirstNightSlot::Spy,
        FirstNightSlot::Washerwoman,
        FirstNightSlot::Librarian,
        FirstNightSlot::Investigator,
        FirstNightSlot::Chef,
        FirstNightSlot::Empath,
        FirstNightSlot::FortuneTeller,
        FirstNightSlot::Butler,
    ];
    assert(v@ =~= first_night_sheet());
    v
}

impl FirstNightSlot {
    /// The character that this slot wakes.
    pub open spec fn wakes(self) -> Character {
        match self {
            FirstNightSlot::Poisoner => Character::Poisoner,
            FirstNightSlot::Spy => Character::Spy,
            FirstNightSlot::Washerwoman => Character::Washerwoman,
            FirstNightSlot::Librarian => Character::Librarian,
            FirstNightSlot::Investigator => Character::Investigator,
            FirstNightSlot::Chef => Character::Chef,
            FirstNightSlot::Empath => Character::Empath,
            FirstNightSlot::FortuneTeller => Character::FortuneTeller,
            FirstNightSlot::Butler => Character::Butler,
        }
    }

    /// Whether the slot goes by the true character rather than the face.
    pub open spec fn by_true_character(self) -> bool {
        self == FirstNightSlot::Poisoner || self == FirstNightSlot::Spy
    }

    pub fn character(self) -> (c: Character)
        ensures
            c == self.wakes(),
    {
        match self {
            FirstNightSlot::Poisoner => Character::Poisoner,
            FirstNightSlot::Spy => Character::Spy,
            FirstNightSlot::Washerwoman => Character::Washerwoman,
            FirstNightSlot::Librarian => Character::Librarian,
            FirstNightSlot::Investigator => Character::Investigator,
            FirstNightSlot::Chef => Character::Chef,
            FirstNightSlot::Empath => Character::Empath,
            FirstNightSlot::FortuneTeller => Character::FortuneTeller,
            FirstNightSlot::Butler => Character::Butler,
        }
    }

    /// Evil wakes match true character; townsfolk/outsider info wakes match face.
    pub fn uses_true_character(self) -> (b: bool)
        ensures
            b == self.by_true_character(),
    {
        matches!(self, FirstNightSlot::Poisoner | FirstNightSlot::Spy)
    }
}

/// Other-night character wakes (before Dawn).
#[derive(Debug, Clone, Copy, PartialEq, Eq, Structural)]
pub enum OtherNightSlot {
    Poisoner,
    Monk,
    Spy,
    Imp,
    Ravenkeeper,
    Undertaker,
    Empath,
    FortuneTeller,
    Butler,
}

/// Other-night character wakes in sheet order (before Dawn).
pub open spec fn other_night_sheet() -> Seq<OtherNightSlot> {
    seq![
        OtherNightSlot::Poisoner,
        OtherNightSlot::Monk,
        OtherNightSlot::Spy,
        OtherNightSlot::Imp,
        OtherNightSlot::Ravenkeeper,
        OtherNightSlot::Undertaker,
        OtherNightSlot::Empath,
        OtherNightSlot::FortuneTeller,
        OtherNightSlot::Butler,
    ]
}

/// Other-night character wakes in sheet order (before Dawn).
pub fn other_night_order() -> (v: Vec<OtherNightSlot>)
    ensures
        v@ == other_night_sheet(),
{
    let v = vec![
        OtherNightSlot::Poisoner,
        OtherNightSlot::Monk,
        OtherNightSlot::Spy,
        OtherNightSlot::Imp,
        OtherNightSlot::Ravenkeeper,
        OtherNightSlot::Undertaker,
        OtherNightSlot::Empath,
        OtherNightSlot::FortuneTeller,
        OtherNightSlot::Butler,
    ];
    assert(v@ =~= other_night_sheet());
    v
}

impl OtherNightSlot {
    /// The character that this slot wakes.
    pub open spec fn wakes(self) -> Character {
        match self {
            OtherNightSlot::Poisoner => Character::Poisoner,
            OtherNightSlot::Monk => Character::Monk,
            OtherNightSlot::Spy => Character::Spy,
            OtherNightSlot::Imp => Character::Imp,
            OtherNightSlot::Ravenkeeper => Character::Ravenkeeper,
            OtherNightSlot::Undertaker => Character::Undertaker,
            OtherNightSlot::Empath => Character::Empath,
            OtherNightSlot::FortuneTeller => Character::FortuneTeller,
            OtherNightSlot::Butler => Character::Butler,
        }
    }

    /// Whether the slot goes by the true character rather than the face.
    pub open spec fn by_true_character(self) -> bool {
        self == OtherNightSlot::Poisoner || self == OtherNightSlot::Spy || self == OtherNightSlot::Imp
    }

    pub fn character(self) -> (c: Character)
        ensures
            c == self.wakes(),
    {
        match self {
            OtherNightSlot::Poisoner => Character::Poisoner,
            OtherNightSlot::Monk => Character::Monk,
            OtherNightSlot::Spy => Character::Spy,
            OtherNightSlot::Imp => Character::Imp,
            OtherNightSlot::Ravenkeeper => Character::Ravenkeeper,
            OtherNightSlot::Undertaker => Character::Undertaker,
            OtherNightSlot::Empath => Character::Empath,
            OtherNightSlot::FortuneTeller => Character::FortuneTeller,
            OtherNightSlot::Butler => Character::Butler,
        }
    }

    /// Evil wakes match true character; townsfolk/outsider info wakes match face.
    pub fn uses_true_character(self) -> (b: bool)
        ensures
            b == self.by_true_character(),
    {
        matches!(self, OtherNightSlot::Poisoner | OtherNightSlot::Spy | OtherNightSlot::Imp)
    }
}

} // verus!
