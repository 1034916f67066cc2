//! Enumerations and static tables for the Trouble Brewing pool.

use vstd::prelude::*;

verus! {

#[derive(Debug, Clone, Copy, PartialEq, Eq, Hash, Structural)]
pub enum Team {
    Good,
    Evil,
}

#[derive(Debug, Clone, Copy, PartialEq, Eq, Hash, Structural)]
pub enum CharacterType {
    Townsfolk,
    Outsider,
    Minion,
    Demon,
}

#[derive(Debug, Clone, Copy, PartialEq, Eq, Hash, Structural)]
pub enum Character {
    // Townsfolk
    Washerwoman,
    Librarian,
    Investigator,
    Chef,
    Empath,
    FortuneTeller,
    Undertaker,
    Monk,
    Ravenkeeper,
    Virgin,
    Slayer,
    Soldier,
    Mayor,
    // Outsiders
    Butler,
    Drunk,
    Recluse,
    Saint,
    // Minions
    Poisoner,
    Spy,
    ScarletWoman,
    Baron,
    // Demon
    Imp,
}

/// Printed name of a character.
pub open spec fn name_of(c: Character) -> Seq<char> {
    match c {
        Character::Washerwoman => "Washerwoman"@,
        Character::Librarian => "Librarian"@,
        Character::Investigator => "Investigator"@,
        Character::Chef => "Chef"@,
        Character::Empath => "Empath"@,
        Character::FortuneTeller => "Fortune Teller"@,
        Character::Undertaker => "Undertaker"@,
        Character::Monk => "Monk"@,
        Character::Ravenkeeper => "Ravenkeeper"@,
        Character::Virgin => "Virgin"@,
        Character::Slayer => "Slayer"@,
        Character::Soldier => "Soldier"@,
        Character::Mayor => "Mayor"@,
        Character::Butler => "Butler"@,
        Character::Drunk => "Drunk"@,
        Character::Recluse => "Recluse"@,
        Character::Saint => "Saint"@,
        Character::Poisoner => "Poisoner"@,
        Character::Spy => "Spy"@,
        Character::ScarletWoman => "Scarlet Woman"@,
        Character::Baron => "Baron"@,
        Character::Imp => "Imp"@,
    }
}

/// Rules document of a character, relative to the repository root.
pub open spec fn rules_path_of(c: Character) -> Seq<char> {
    match c {
        Character::Washerwoman => "docs/roles/townsfolk/washerwoman.md"@,
        Character::Librarian => "docs/roles/townsfolk/librarian.md"@,
        Character::Investigator => "docs/roles/townsfolk/investigator.md"@,
        Character::Chef => "docs/roles/townsfolk/chef.md"@,
        Character::Empath => "docs/roles/townsfolk/empath.md"@,
        Character::FortuneTeller => "docs/roles/townsfolk/fortune-teller.md"@,
        Character::Undertaker => "docs/roles/townsfolk/undertaker.md"@,
        Character::Monk => "docs/roles/townsfolk/monk.md"@,
        Character::Ravenkeeper => "docs/roles/townsfolk/ravenkeeper.md"@,
        Character::Virgin => "docs/roles/townsfolk/virgin.md"@,
        Character::Slayer => "docs/roles/townsfolk/slayer.md"@,
        Character::Soldier => "docs/roles/townsfolk/soldier.md"@,
        Character::Mayor => "docs/roles/townsfolk/mayor.md"@,
        Character::Butler => "docs/roles/outsiders/butler.md"@,
        Character::Drunk => "docs/roles/outsiders/drunk.md"@,
        Character::Recluse => "docs/roles/outsiders/recluse.md"@,
        Character::Saint => "docs/roles/outsiders/saint.md"@,
        Character::Poisoner => "docs/roles/minions/poisoner.md"@,
        Character::Spy => "docs/roles/minions/spy.md"@,
        Character::ScarletWoman => "docs/roles/minions/scarlet-woman.md"@,
        Character::Baron => "docs/roles/minions/baron.md"@,
        Character::Imp => "docs/roles/demons/imp.md"@,
    }
}

pub fn display_name(c: Character) -> (s: &'static str)
    ensures
        s@ == name_of(c),
{
    match c {
        Character::Washerwoman => "Washerwoman",
        Character::Librarian => "Librarian",
        Character::Investigator => "Investigator",
        Character::Chef => "Chef",
        Character::Empath => "Empath",
        Character::FortuneTeller => "Fortune Teller",
        Character::Undertaker => "Undertaker",
        Character::Monk => "Monk",
        Character::Ravenkeeper => "Ravenkeeper",
        Character::Virgin => "Virgin",
        Character::Slayer => "Slayer",
        Character::Soldier => "Soldier",
        Character::Mayor => "Mayor",
        Character::Butler => "Butler",
        Character::Drunk => "Drunk",
        Character::Recluse => "Recluse",
        Character::Saint => "Saint",
        Character::Poisoner => "Poisoner",
        Character::Spy => "Spy",
        Character::ScarletWoman => "Scarlet Woman",
        Character::Baron => "Baron",
        Character::Imp => "Imp",
    }
}

pub fn rules_path(c: Character) -> (s: &'static str)
    ensures
        s@ == rules_path_of(c),
{
    match c {
        Character::Washerwoman => "docs/roles/townsfolk/washerwoman.md",
        Character::Librarian => "docs/roles/townsfolk/librarian.md",
        Character::Investigator => "docs/roles/townsfolk/investigator.md",
        Character::Chef => "docs/roles/townsfolk/chef.md",
        Character::Empath => "docs/roles/townsfolk/empath.md",
        Character::FortuneTeller => "docs/roles/townsfolk/fortune-teller.md",
        Character::Undertaker => "docs/roles/townsfolk/undertaker.md",
        Character::Monk => "docs/roles/townsfolk/monk.md",
        Character::Ravenkeeper => "docs/roles/townsfolk/ravenkeeper.md",
        Character::Virgin => "docs/roles/townsfolk/virgin.md",
        Character::Slayer => "docs/roles/townsfolk/slayer.md",
        Character::Soldier => "docs/roles/townsfolk/soldier.md",
        Character::Mayor => "docs/roles/townsfolk/mayor.md",
        Character::Butler => "docs/roles/outsiders/butler.md",
        Character::Drunk => "docs/roles/outsiders/drunk.md",
        Character::Recluse => "docs/roles/outsiders/recluse.md",
        Character::Saint => "docs/roles/outsiders/saint.md",
        Character::Poisoner => "docs/roles/minions/poisoner.md",
        Character::Spy => "docs/roles/minions/spy.md",
        Character::ScarletWoman => "docs/roles/minions/scarlet-woman.md",
        Character::Baron => "docs/roles/minions/baron.md",
        Character::Imp => "docs/roles/demons/imp.md",
    }
}

} // verus!
