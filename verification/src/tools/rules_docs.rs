//! Public gameplay rules docs (not player secrets). Allowlisted markdown under `docs/`.

use crate::error::ToolError;
use crate::roles::data::{name_of, rules_path_of};
use crate::roles::{
    all_characters, full_pool, team_of, type_of, Character, CharacterType, Team,
};
use crate::text::{drop_char, lowered, str_eq, swap_char, swapped, to_lower, trim, trimmed, without};
use vstd::prelude::*;
use vstd::string::*;

verus! {

/// One public rules topic players may retrieve individually.
#[derive(Debug, Clone, Copy)]
pub struct RulesTopic {
    pub id: &'static str,
    pub title: &'static str,
    pub description: &'static str,
    /// Where its file lies, relative to the crate root and without the extension.
    pub stem: &'static str,
}

impl RulesTopic {
    /// Where the file of the topic lies, relative to the crate root.
    pub open spec fn file(self) -> Seq<char> {
        self.stem@ + ".md"@
    }

    /// Where the file of the topic lies, relative to the crate root.
    pub fn path(&self) -> (s: String)
        ensures
            s@ == self.file(),
    {
        let mut s = self.stem.to_owned();
        s.append(".md");
        s
    }
}

/// Allowlisted topics (no architecture / MCP / design internals).
pub open spec fn rules_topics() -> Seq<RulesTopic> {
    seq![
        RulesTopic {
            id: "overview",
            title: "Overview",
            description: "What Trouble Brewing is, teams, and basic player rules",
            stem: "docs/overview",
        },
        RulesTopic {
            id: "gameplay_loop",
            title: "Gameplay loop",
            description: "Night and day structure for a full game",
            stem: "docs/gameplay-loop",
        },
        RulesTopic {
            id: "setup",
            title: "Setup",
            description: "Player counts, bag composition, and setup steps",
            stem: "docs/setup",
        },
        RulesTopic {
            id: "night_order",
            title: "Night order",
            description: "First night and other-night wake order",
            stem: "docs/night-order",
        },
        RulesTopic {
            id: "voting",
            title: "Voting and nominations",
            description: "Nominations, vote thresholds, execution, ghost votes",
            stem: "docs/voting-and-nominations",
        },
        RulesTopic {
            id: "win_conditions",
            title: "Win conditions",
            description: "How Good and Evil win",
            stem: "docs/win-conditions",
        },
        RulesTopic {
            id: "death_and_ghosts",
            title: "Death and ghost votes",
            description: "What dead players can do",
            stem: "docs/death-and-ghosts",
        },
        RulesTopic {
            id: "states",
            title: "States",
            description: "Drunk, poisoned, registration, and related states",
            stem: "docs/states",
        },
        RulesTopic {
            id: "abilities",
            title: "Ability resolution",
            description: "How abilities resolve and Storyteller vs player choices",
            stem: "docs/abilities-rules",
        },
        RulesTopic {
            id: "characters",
            title: "Character pool",
            description: "Index of all Trouble Brewing characters and doc paths",
            stem: "docs/characters",
        },
        RulesTopic {
            id: "character_types",
            title: "Character types",
            description: "Townsfolk, Outsiders, Minions, Demon (no individual abilities)",
            stem: "docs/roles/character-types",
        },
        RulesTopic {
            id: "glossary",
            title: "Glossary",
            description: "Common terms",
            stem: "docs/glossary",
        },
        RulesTopic {
            id: "storyteller",
            title: "Storyteller",
            description: "What the Storyteller (moderator) does; public knowledge",
            stem: "docs/storyteller",
        },
    ]
}

/// All allowlisted topics.
pub fn list_rules_topics() -> (v: Vec<RulesTopic>)
    ensures
        v@ == rules_topics(),
{
    let v = vec![
        RulesTopic {
            id: "overview",
            title: "Overview",
            description: "What Trouble Brewing is, teams, and basic player rules",
            stem: "docs/overview",
        },
        RulesTopic {
            id: "gameplay_loop",
            title: "Gameplay loop",
            description: "Night and day structure for a full game",
            stem: "docs/gameplay-loop",
        },
        RulesTopic {
            id: "setup",
            title: "Setup",
            description: "Player counts, bag composition, and setup steps",
            stem: "docs/setup",
        },
        RulesTopic {
            id: "night_order",
            title: "Night order",
            description: "First night and other-night wake order",
            stem: "docs/night-order",
        },
        RulesTopic {
            id: "voting",
            title: "Voting and nominations",
            description: "Nominations, vote thresholds, execution, ghost votes",
            stem: "docs/voting-and-nominations",
        },
        RulesTopic {
            id: "win_conditions",
            title: "Win conditions",
            description: "How Good and Evil win",
            stem: "docs/win-conditions",
        },
        RulesTopic {
            id: "death_and_ghosts",
            title: "Death and ghost votes",
            description: "What dead players can do",
            stem: "docs/death-and-ghosts",
        },
        RulesTopic {
            id: "states",
            title: "States",
            description: "Drunk, poisoned, registration, and related states",
            stem: "docs/states",
        },
        RulesTopic {
            id: "abilities",
            title: "Ability resolution",
            description: "How abilities resolve and Storyteller vs player choices",
            stem: "docs/abilities-rules",
        },
        RulesTopic {
            id: "characters",
            title: "Character pool",
            description: "Index of all Trouble Brewing characters and doc paths",
            stem: "docs/characters",
        },
        RulesTopic {
            id: "character_types",
            title: "Character types",
            description: "Townsfolk, Outsiders, Minions, Demon (no individual abilities)",
            stem: "docs/roles/character-types",
        },
        RulesTopic {
            id: "glossary",
            title: "Glossary",
            description: "Common terms",
            stem: "docs/glossary",
        },
        RulesTopic {
            id: "storyteller",
            title: "Storyteller",
            description: "What the Storyteller (moderator) does; public knowledge",
            stem: "docs/storyteller",
        },
    ];
    assert(v@ =~= rules_topics());
    v
}

/// A topic id as it is looked up: trimmed, in lower case, with `_` for `-`.
pub open spec fn topic_key(id: Seq<char>) -> Seq<char> {
    swapped(lowered(trimmed(id)), '-', '_')
}

/// The topic answers to this key, with or without its underscores.
pub open spec fn topic_answers(t: RulesTopic, key: Seq<char>) -> bool {
    t.id@ == key || without(t.id@, '_') == without(key, '_')
}

/// The first topic that answers to an id.
pub open spec fn topic_for(topics: Seq<RulesTopic>, id: Seq<char>) -> Option<RulesTopic>
    decreases topics.len(),
{
    if topics.len() == 0 {
        None
    } else {
        match topic_for(topics.drop_last(), id) {
            Some(t) => Some(t),
            None => if topic_answers(topics.last(), topic_key(id)) {
                Some(topics.last())
            } else {
                None
            },
        }
    }
}

#[verifier::loop_isolation(false)]
pub fn find_rules_topic(id: &str) -> (r: Option<RulesTopic>)
    ensures
        r == topic_for(rules_topics(), id@),
{
    let key = swap_char(to_lower(trim(id).as_str()).as_str(), '-', '_');
    let bare = drop_char(key.as_str(), '_');
    let topics = list_rules_topics();
    let mut found: Option<RulesTopic> = None;
    let mut i: usize = 0;
    while i < topics.len()
        invariant
            i <= topics.len(),
            found == topic_for(topics@.take(i as int), id@),
        decreases topics.len() - i,
    {
        assert(topics@.take(i + 1).drop_last() =~= topics@.take(i as int));
        if found.is_none() {
            let t = topics[i];
            if str_eq(t.id, key.as_str()) || str_eq(drop_char(t.id, '_').as_str(), bare.as_str()) {
                found = Some(t);
            }
        }
        i += 1;
    }
    assert(topics@.take(i as int) =~= topics@);
    found
}

/// One rules topic by id with its text. `text` is what the topic's file holds, `None` where it
/// cannot be read.
pub fn load_rules_topic(id: &str, text: Option<String>) -> (r: Result<
    (RulesTopic, String),
    ToolError,
>)
    ensures
        match topic_for(rules_topics(), id@) {
            None => r == Err::<(RulesTopic, String), ToolError>(
                ToolError::BadRequest("unknown rules topic; call list_rules_topics for ids"),
            ),
            Some(topic) => match text {
                None => r == Err::<(RulesTopic, String), ToolError>(
                    ToolError::BadRequest("rules topic file missing"),
                ),
                Some(body) => r == Ok::<(RulesTopic, String), ToolError>((topic, body)),
            },
        },
{
    match find_rules_topic(id) {
        None => Err(ToolError::BadRequest("unknown rules topic; call list_rules_topics for ids")),
        Some(topic) => match text {
            None => Err(ToolError::BadRequest("rules topic file missing")),
            Some(body) => Ok((topic, body)),
        },
    }
}

#[derive(Debug, Clone, Copy)]
pub struct CharacterListEntry {
    pub name: &'static str,
    pub character_type: &'static str,
    pub team: &'static str,
    pub rules_path: &'static str,
}

/// The word for a kind of character.
pub open spec fn type_word(t: CharacterType) -> Seq<char> {
    match t {
        CharacterType::Townsfolk => "Townsfolk"@,
        CharacterType::Outsider => "Outsider"@,
        CharacterType::Minion => "Minion"@,
        CharacterType::Demon => "Demon"@,
    }
}

/// The word for a team.
pub open spec fn team_word(t: Team) -> Seq<char> {
    match t {
        Team::Good => "Good"@,
        Team::Evil => "Evil"@,
    }
}

/// The word for a kind of character.
pub fn type_label(t: CharacterType) -> (s: &'static str)
    ensures
        s@ == type_word(t),
{
    match t {
        CharacterType::Townsfolk => "Townsfolk",
        CharacterType::Outsider => "Outsider",
        CharacterType::Minion => "Minion",
        CharacterType::Demon => "Demon",
    }
}

/// The word for a team.
pub fn team_label(t: Team) -> (s: &'static str)
    ensures
        s@ == team_word(t),
{
    match t {
        Team::Good => "Good",
        Team::Evil => "Evil",
    }
}

/// The entry describes the character.
pub open spec fn describes(e: CharacterListEntry, c: Character) -> bool {
    e.name@ == name_of(c) && e.character_type@ == type_word(type_of(c)) && e.team@ == team_word(
        team_of(c),
    ) && e.rules_path@ == rules_path_of(c)
}

fn entry(c: Character) -> (e: CharacterListEntry)
    ensures
        describes(e, c),
{
    CharacterListEntry {
        name: c.display_name(),
        character_type: type_label(c.character_type()),
        team: team_label(c.team()),
        rules_path: c.rules_doc_path(),
    }
}

/// Full Trouble Brewing character pool (public knowledge).
pub fn list_characters() -> (v: Vec<CharacterListEntry>)
    ensures
        v@.len() == full_pool().len(),
        forall|i: int| 0 <= i < v@.len() ==> describes(#[trigger] v@[i], full_pool()[i]),
{
    let pool = all_characters();
    let mut v: Vec<CharacterListEntry> = Vec::new();
    let mut i: usize = 0;
    while i < pool.len()
        invariant
            i <= pool.len(),
            pool@ == full_pool(),
            v@.len() == i,
            forall|k: int| 0 <= k < i ==> describes(#[trigger] v@[k], full_pool()[k]),
        decreases pool.len() - i,
    {
        v.push(entry(pool[i]));
        i += 1;
    }
    v
}

} // verus!
