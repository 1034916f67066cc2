//! Character identity and static metadata (no per-game state).

use vstd::prelude::*;

pub mod data;
pub mod night_order;

pub use data::{Character, CharacterType, Team};

verus! {

/// Kind of a character on the Trouble Brewing sheet.
pub open spec fn type_of(c: Character) -> CharacterType {
    match c {
        Character::Butler | Character::Drunk | Character::Recluse | Character::Saint =>
            CharacterType::Outsider,
        Character::Poisoner | Character::Spy | Character::ScarletWoman | Character::Baron =>
            CharacterType::Minion,
        Character::Imp => CharacterType::Demon,
        _ => CharacterType::Townsfolk,
    }
}

/// Alignment of a character: Minions and the Demon are evil, everyone else is good.
pub open spec fn team_of(c: Character) -> Team {
    match type_of(c) {
        CharacterType::Townsfolk | CharacterType::Outsider => Team::Good,
        CharacterType::Minion | CharacterType::Demon => Team::Evil,
    }
}

impl Character {
    pub fn team(self) -> (t: Team)
        ensures
            t == team_of(self),
    {
        match self.character_type() {
            CharacterType::Townsfolk | CharacterType::Outsider => Team::Good,
            CharacterType::Minion | CharacterType::Demon => Team::Evil,
        }
    }

    pub fn character_type(self) -> (t: CharacterType)
        ensures
            t == type_of(self),
    {
        match self {
            Character::Washerwoman | Character::Librarian | Character::Investigator
            | Character::Chef | Character::Empath | Character::FortuneTeller
            | Character::Undertaker | Character::Monk | Character::Ravenkeeper
            | Character::Virgin | Character::Slayer | Character::Soldier | Character::Mayor =>
                CharacterType::Townsfolk,
            Character::Butler | Character::Drunk | Character::Recluse | Character::Saint =>
                CharacterType::Outsider,
            Character::Poisoner | Character::Spy | Character::ScarletWoman | Character::Baron =>
                CharacterType::Minion,
            Character::Imp => CharacterType::Demon,
        }
    }

    /// Path under repo root for rules text loading.
    pub fn rules_doc_path(self) -> (s: &'static str)
        ensures
            s@ == data::rules_path_of(self),
    {
        data::rules_path(self)
    }

    pub fn display_name(self) -> (s: &'static str)
        ensures
            s@ == data::name_of(self),
    {
        data::display_name(self)
    }
}

/// The thirteen Townsfolk, in sheet order.
pub open spec fn townsfolk_pool() -> Seq<Character> {
    seq![
        Character::Washerwoman,
        Character::Librarian,
        Character::Investigator,
        Character::Chef,
        Character::Empath,
        Character::FortuneTeller,
        Character::Undertaker,
        Character::Monk,
        Character::Ravenkeeper,
        Character::Virgin,
        Character::Slayer,
        Character::Soldier,
        Character::Mayor,
    ]
}

/// The thirteen Townsfolk, in sheet order.
pub fn all_townsfolk() -> (v: Vec<Character>)
    ensures
        v@ == townsfolk_pool(),
{
    let v = vec![
        Character::Washerwoman,
        Character::Librarian,
        Character::Investigator,
        Character::Chef,
        Character::Empath,
        Character::FortuneTeller,
        Character::Undertaker,
        Character::Monk,
        Character::Ravenkeeper,
        Character::Virgin,
        Character::Slayer,
        Character::Soldier,
        Character::Mayor,
    ];
    assert(v@ =~= townsfolk_pool());
    v
}

/// The four Outsiders, in sheet order.
pub open spec fn outsiders_pool() -> Seq<Character> {
    seq![
        Character::Butler,
        Character::Drunk,
        Character::Recluse,
        Character::Saint,
    ]
}

/// The four Outsiders, in sheet order.
pub fn all_outsiders() -> (v: Vec<Character>)
    ensures
        v@ == outsiders_pool(),
{
    let v = vec![
        Character::Butler,
        Character::Drunk,
        Character::Recluse,
        Character::Saint,
    ];
    assert(v@ =~= outsiders_pool());
    v
}

/// The four Minions, in sheet order.
pub open spec fn minions_pool() -> Seq<Character> {
    seq![
        Character::Poisoner,
        Character::Spy,
        Character::ScarletWoman,
        Character::Baron,
    ]
}

/// The four Minions, in sheet order.
pub fn all_minions() -> (v: Vec<Character>)
    ensures
        v@ == minions_pool(),
{
    let v = vec![
        Character::Poisoner,
        Character::Spy,
        Character::ScarletWoman,
        Character::Baron,
    ];
    assert(v@ =~= minions_pool());
    v
}

/// The one Demon.
pub open spec fn demons_pool() -> Seq<Character> {
    seq![
        Character::Imp,
    ]
}

/// The one Demon.
pub fn all_demons() -> (v: Vec<Character>)
    ensures
        v@ == demons_pool(),
{
    let v = vec![
        Character::Imp,
    ];
    assert(v@ =~= demons_pool());
    v
}

/// Every character: Townsfolk, Outsiders, Minions, then the Demon.
pub open spec fn full_pool() -> Seq<Character> {
    townsfolk_pool() + outsiders_pool() + minions_pool() + demons_pool()
}

/// Every good character: Townsfolk, then Outsiders.
pub open spec fn good_pool() -> Seq<Character> {
    townsfolk_pool() + outsiders_pool()
}

/// Every good character: Townsfolk, then Outsiders.
pub fn all_good() -> (v: Vec<Character>)
    ensures
        v@ == good_pool(),
{
    let mut v = all_townsfolk();
    v.append(&mut all_outsiders());
    v
}

/// Every character: Townsfolk, Outsiders, Minions, then the Demon.
pub fn all_characters() -> (v: Vec<Character>)
    ensures
        v@ == full_pool(),
{
    let mut v = all_good();
    v.append(&mut all_minions());
    v.append(&mut all_demons());
    v
}

/// The four pools hold exactly the characters of their kind, each once.
pub proof fn pools_partition_the_sheet(c: Character)
    ensures
        townsfolk_pool().contains(c) <==> type_of(c) == CharacterType::Townsfolk,
        outsiders_pool().contains(c) <==> type_of(c) == CharacterType::Outsider,
        minions_pool().contains(c) <==> type_of(c) == CharacterType::Minion,
        demons_pool().contains(c) <==> type_of(c) == CharacterType::Demon,
        full_pool().contains(c),
        full_pool().no_duplicates(),
{
    let i = index_on_sheet(c);
    assert(full_pool()[i] == c);
    if type_of(c) == CharacterType::Townsfolk {
        assert(townsfolk_pool()[i] == c);
    } else if type_of(c) == CharacterType::Outsider {
        assert(outsiders_pool()[i - 13] == c);
    } else if type_of(c) == CharacterType::Minion {
        assert(minions_pool()[i - 17] == c);
    } else {
        assert(demons_pool()[i - 21] == c);
    }
    assert forall|k: int| 0 <= k < 22 implies index_on_sheet(#[trigger] full_pool()[k]) == k by {}
}

/// Position of a character in [`full_pool`].
pub open spec fn index_on_sheet(c: Character) -> int {
    match c {
        Character::Washerwoman => 0,
        Character::Librarian => 1,
        Character::Investigator => 2,
        Character::Chef => 3,
        Character::Empath => 4,
        Character::FortuneTeller => 5,
        Character::Undertaker => 6,
        Character::Monk => 7,
        Character::Ravenkeeper => 8,
        Character::Virgin => 9,
        Character::Slayer => 10,
        Character::Soldier => 11,
        Character::Mayor => 12,
        Character::Butler => 13,
        Character::Drunk => 14,
        Character::Recluse => 15,
        Character::Saint => 16,
        Character::Poisoner => 17,
        Character::Spy => 18,
        Character::ScarletWoman => 19,
        Character::Baron => 20,
        Character::Imp => 21,
    }
}

} // verus!
