//! From the setup screen to a running table.

use crate::auth::Token;
use crate::game::ids::{GameId, SeatId};
use crate::game::setup::StartOpts;
use crate::game::st_policy::{RegistrationMode, StChoiceMode};
use crate::game::state::{is_fresh_lobby, secrets, CreateGameResult, Game, RoleAssignment};
use crate::harness::action_log::{labels_view, ActorLabel, ActorLabelView};
use crate::harness::agents::{
    agents_view, AgentConfig, AgentConfigView, AgentRole, Backend, HarnessConfig,
};
use crate::harness::tui::paint::{name_of_slot, slot_name};
use crate::harness::tui::setup::{
    list_seat_names, seat_names, ChoiceView, SeatChoice, Setup, SetupView,
};
use crate::harness::tui::setup_keys::offered;
use crate::harness::tui::setup_pane::pick_at;
use crate::store::GameStore;
use crate::text::{dec, holds_text, numbered, push_dec, str_eq, texts};
use crate::tools;
use vstd::prelude::*;
use vstd::string::*;

verus! {

/// What the machine has to offer for a launch.
pub struct LaunchFacts {
    /// Agents or a socket are there already: a failed prior launch may have left a socket.
    pub launched: bool,
    /// Where the agent proxy was looked for.
    pub mcp_path: String,
    /// Whether it is there.
    pub mcp_ok: bool,
    /// Whether the binary of the second backend is there.
    pub claude_ok: bool,
}

/// Some session runs on the second backend.
pub open spec fn uses_claude(choices: Seq<ChoiceView>) -> bool {
    exists|i: int| 0 <= i < choices.len() && (#[trigger] choices[i]).backend is Claude
}

/// The pick names a model that its backend does not offer.
pub open spec fn misfit(c: ChoiceView, cfg: HarnessConfig) -> bool {
    c.backend is Claude && !offered(cfg, Backend::Claude).contains(c.model)
}

/// The first pick that names a model that its backend does not offer.
pub open spec fn first_misfit(choices: Seq<ChoiceView>, cfg: HarnessConfig) -> Option<int>
    decreases choices.len(),
{
    if choices.len() == 0 {
        None
    } else {
        match first_misfit(choices.drop_last(), cfg) {
            Some(i) => Some(i),
            None => if misfit(choices.last(), cfg) { Some(choices.len() - 1) } else { None },
        }
    }
}

pub const ALREADY_LAUNCHED: &'static str = "Already launched — restart the TUI for a new table.";

/// Why a launch is refused, if it is.
pub open spec fn refusal(
    s: SetupView,
    cfg: HarnessConfig,
    facts: LaunchFacts,
) -> Option<Seq<char>> {
    if facts.launched {
        Some(ALREADY_LAUNCHED@)
    } else if !facts.mcp_ok {
        Some(
            "botc-agent-mcp not found (looked for "@ + facts.mcp_path@
                + "). Run: cargo build --bins"@,
        )
    } else if uses_claude(s.seat_choices) && !facts.claude_ok {
        Some(
            "alt backend selected but its binary was not found ("@ + cfg.claude_bin@
                + "). Install it or switch the seat to grok (b)."@,
        )
    } else {
        match first_misfit(s.seat_choices, cfg) {
            Some(i) => Some(
                slot_name(i) + ": alt model '"@ + s.seat_choices[i].model
                    + "' not in the alt list — re-pick with ←/→."@,
            ),
            None => None,
        }
    }
}

#[verifier::loop_isolation(false)]
fn find_claude_seat(s: &Setup) -> (b: bool)
    ensures
        b == uses_claude(s@.seat_choices),
{
    let mut i: usize = 0;
    while i < s.seat_choices.len()
        invariant
            i <= s.seat_choices@.len(),
            forall|k: int| 0 <= k < i ==> !((#[trigger] s@.seat_choices[k]).backend is Claude),
        decreases s.seat_choices@.len() - i,
    {
        assert(s@.seat_choices[i as int] == s.seat_choices@[i as int]@);
        if s.seat_choices[i].backend == Backend::Claude {
            return true;
        }
        i += 1;
    }
    false
}

#[verifier::loop_isolation(false)]
fn find_misfit(s: &Setup, cfg: &HarnessConfig) -> (r: Option<usize>)
    ensures
        match r {
            Some(i) => i < s.seat_choices@.len() && first_misfit(s@.seat_choices, *cfg) == Some(
                i as int,
            ),
            None => first_misfit(s@.seat_choices, *cfg) is None,
        },
{
    let ghost all = s@.seat_choices;
    let mut found: Option<usize> = None;
    let mut i: usize = 0;
    while i < s.seat_choices.len()
        invariant
            i <= s.seat_choices@.len(),
            match found {
                Some(k) => k < i && first_misfit(all.take(i as int), *cfg) == Some(k as int),
                None => first_misfit(all.take(i as int), *cfg) is None,
            },
        decreases s.seat_choices@.len() - i,
    {
        assert(all.take(i + 1).drop_last() =~= all.take(i as int));
        assert(all[i as int] == s.seat_choices@[i as int]@);
        let c = &s.seat_choices[i];
        if found.is_none() && c.backend == Backend::Claude && !holds_text(
            cfg.models_for(Backend::Claude),
            c.model.as_str(),
        ) {
            found = Some(i);
        }
        i += 1;
    }
    assert(all.take(i as int) =~= all);
    found
}

/// Why a launch is refused, if it is.
pub fn launch_refusal(s: &Setup, cfg: &HarnessConfig, facts: &LaunchFacts) -> (r: Option<String>)
    ensures
        match r {
            Some(why) => refusal(s@, *cfg, *facts) == Some(why@),
            None => refusal(s@, *cfg, *facts) is None,
        },
{
    if facts.launched {
        return Some(ALREADY_LAUNCHED.to_owned());
    }
    // Refuse to launch without a real agent proxy binary.
    if !facts.mcp_ok {
        let mut why = "botc-agent-mcp not found (looked for ".to_owned();
        why.append(facts.mcp_path.as_str());
        why.append("). Run: cargo build --bins");
        return Some(why);
    }
    // A seat on the second backend needs its binary + a model from its list.
    if find_claude_seat(s) && !facts.claude_ok {
        let mut why = "alt backend selected but its binary was not found (".to_owned();
        why.append(cfg.claude_bin.as_str());
        why.append("). Install it or switch the seat to grok (b).");
        return Some(why);
    }
    match find_misfit(s, cfg) {
        Some(i) => {
            assert(s@.seat_choices[i as int] == s.seat_choices@[i as int]@);
            let mut why = name_of_slot(i);
            why.append(": alt model '");
            why.append(s.seat_choices[i].model.as_str());
            why.append("' not in the alt list — re-pick with ←/→.");
            Some(why)
        },
        None => None,
    }
}

// ---------------------------------------------------------------------------
// The game
// ---------------------------------------------------------------------------

/// A table that has been opened: the game in the store and the tokens to it.
pub struct OpenTable {
    pub game_id: u64,
    pub host_token: Token,
    pub player_tokens: Vec<Token>,
    pub player_names: Vec<String>,
}

/// Create the game and put it into the store. `P0`, `P1`, … are the players.
pub fn open_table(store: &mut GameStore, s: &Setup, seed: u64) -> (t: OpenTable)
    requires
        s@.wf(),
    ensures
        t.game_id == old(store)@.next_id,
        texts(t.player_names@) == seat_names(s@.player_count as nat),
        t.player_tokens@.len() == s@.player_count,
        exists|lobby: CreateGameResult|
            {
                &&& #[trigger] is_fresh_lobby(
                    lobby,
                    GameId(0),
                    seed,
                    lobby.game.secret_salt,
                    t.player_names@,
                )
                &&& lobby.host_token@ == t.host_token@
                &&& secrets(lobby.player_tokens@) == secrets(t.player_tokens@)
                &&& final(store)@ == old(store)@.inserted(lobby.game@)
            },
{
    let names = list_seat_names(s.player_count);
    let ghost listed = names@;
    let player_names = copy_names(&names);
    let created = match Game::create(names, seed) {
        Ok(c) => c,
        Err(_) => {
            assert(false);
            return OpenTable {
                game_id: 0,
                host_token: Token::from_shared(""),
                player_tokens: Vec::new(),
                player_names,
            };
        },
    };
    let ghost lobby = created;
    let host_token = created.host_token;
    let player_tokens = created.player_tokens;
    let id = store.insert(created.game);
    assert(store@ == old(store)@.inserted(lobby.game@));
    assert(host_token@ == lobby.host_token@);
    assert(secrets(player_tokens@) == secrets(lobby.player_tokens@));
    assert(player_names@ =~= listed);
    assert(is_fresh_lobby(lobby, GameId(0), seed, lobby.game.secret_salt, player_names@));
    OpenTable { game_id: id.0, host_token, player_tokens, player_names }
}

/// A copy of a list of names.
fn copy_names(names: &Vec<String>) -> (v: Vec<String>)
    ensures
        v@ == names@,
{
    let mut v: Vec<String> = Vec::new();
    let mut i: usize = 0;
    while i < names.len()
        invariant
            i <= names@.len(),
            v@.len() == i,
            forall|k: int| 0 <= k < i ==> (#[trigger] v@[k]) == names@[k],
        decreases names@.len() - i,
    {
        v.push(names[i].clone());
        i += 1;
    }
    assert(v@ =~= names@);
    v
}

/// The options start a game with exactly the roles shown on the setup screen; a fresh random bag
/// only if the preview is missing or mismatched.
pub open spec fn opts_launch(o: StartOpts, s: SetupView, cfg: HarnessConfig) -> bool {
    &&& match o.assignments {
        Some(v) => s.setup_roles.len() == s.player_count && v@ == s.setup_roles,
        None => s.setup_roles.len() != s.player_count,
    }
    &&& o.drunk_faces is None
    &&& o.red_herring is None
    &&& o.demon_bluffs is None
    &&& o.registration_mode == RegistrationMode::Random
    &&& o.st_choice_mode == (if cfg.st_choice_mode@ == "random"@ {
        StChoiceMode::Random
    } else {
        StChoiceMode::HostFirst
    })
}

/// The options for launching with exactly the roles shown on the setup screen.
pub fn launch_opts(s: &Setup, cfg: &HarnessConfig) -> (o: StartOpts)
    ensures
        opts_launch(o, s@, *cfg),
{
    let assignments = if s.setup_roles.len() == s.player_count {
        let mut v: Vec<RoleAssignment> = Vec::new();
        let mut i: usize = 0;
        while i < s.setup_roles.len()
            invariant
                i <= s.setup_roles@.len(),
                v@.len() == i,
                forall|k: int| 0 <= k < i ==> (#[trigger] v@[k]) == s.setup_roles@[k],
            decreases s.setup_roles@.len() - i,
        {
            let a = &s.setup_roles[i];
            v.push(
                RoleAssignment {
                    seat: a.seat,
                    true_character: a.true_character,
                    believed_character: a.believed_character,
                },
            );
            i += 1;
        }
        assert(v@ =~= s.setup_roles@);
        Some(v)
    } else {
        None
    };
    StartOpts {
        assignments,
        st_choice_mode: if str_eq(cfg.st_choice_mode.as_str(), "random") {
            StChoiceMode::Random
        } else {
            StChoiceMode::HostFirst
        },
        ..StartOpts::default()
    }
}

/// Start the game of an opened table; a refusal is given in words.
pub fn start_table(
    store: &mut GameStore,
    game_id: u64,
    host: &Token,
    opts: StartOpts,
) -> (r: Result<
    (),
    String,
>)
    ensures
        match old(store)@.game(GameId(game_id)) {
            Some(g) => {
                let (after, answer) = g.started(host@, opts);
                &&& final(store)@ == old(store)@.with_game(GameId(game_id), after)
                &&& match answer {
                    Ok(_) => r is Ok,
                    Err(e) => r matches Err(why) && why@ == "start_game: "@ + e.wording(),
                }
            },
            None => final(store)@ == old(store)@ && (r matches Err(why) && why@
                == "start_game: unknown game"@),
        },
{
    match store.get_mut(GameId(game_id)) {
        Some(g) => match tools::start_game(g, host, opts) {
            Ok(()) => Ok(()),
            Err(e) => {
                let mut why = "start_game: ".to_owned();
                why.append(e.message().as_str());
                Err(why)
            },
        },
        None => Err("start_game: unknown game".to_owned()),
    }
}

// ---------------------------------------------------------------------------
// The agents
// ---------------------------------------------------------------------------

/// The label of a player.
pub open spec fn player_label(i: int) -> ActorLabelView {
    ActorLabelView { name: "P"@ + dec(i as nat), seat: Some((i % 256) as u8), is_host: false }
}

/// The labels of everybody at the table.
pub open spec fn table_labels(host: Seq<char>, players: Seq<Seq<char>>) -> Seq<
    (Seq<char>, ActorLabelView),
> {
    seq![(host, ActorLabelView { name: "Host"@, seat: None, is_host: true })] + Seq::new(
        players.len(),
        |i: int| (players[i], player_label(i)),
    )
}

/// Token → actor labels so the action feed can name each caller.
#[verifier::loop_isolation(false)]
pub fn actor_labels(host: &Token, players: &Vec<Token>) -> (v: Vec<(String, ActorLabel)>)
    ensures
        labels_view(v@) == table_labels(host@, secrets(players@)),
{
    let mut v: Vec<(String, ActorLabel)> = Vec::new();
    v.push(
        (
            host.as_str().to_owned(),
            ActorLabel { name: "Host".to_owned(), seat: None, is_host: true },
        ),
    );
    let mut i: usize = 0;
    while i < players.len()
        invariant
            i <= players@.len(),
            v@.len() == i + 1,
            v@[0].0@ == host@,
            v@[0].1@ == (ActorLabelView { name: "Host"@, seat: None, is_host: true }),
            forall|k: int|
                0 <= k < i ==> (#[trigger] v@[k + 1]).0@ == players@[k]@ && v@[k + 1].1@
                    == player_label(k),
        decreases players@.len() - i,
    {
        let ghost old_v = v@;
        v.push(
            (
                players[i].as_str().to_owned(),
                ActorLabel {
                    name: numbered("P", i as u64),
                    seat: Some((i % 256) as u8),
                    is_host: false,
                },
            ),
        );
        i += 1;
        assert forall|k: int| 0 <= k < i implies (#[trigger] v@[k + 1]).0@ == players@[k]@ && v@[k
            + 1].1@ == player_label(k) by {
            if k + 1 < old_v.len() {
                assert(v@[k + 1] == old_v[k + 1]);
            }
        }
    }
    proof {
        let wanted = table_labels(host@, secrets(players@));
        assert forall|k: int| 0 <= k < v@.len() implies (v@[k].0@, v@[k].1@) == wanted[k] by {
            if k > 0 {
                assert(v@[(k - 1) + 1].0@ == players@[k - 1]@);
            }
        }
        assert(labels_view(v@) =~= wanted);
    }
    v
}

/// The configuration of the Storyteller's session.
pub open spec fn host_config(
    s: SetupView,
    cfg: HarnessConfig,
    host: Seq<char>,
    game_id: u64,
) -> AgentConfigView {
    AgentConfigView {
        role: AgentRole::Host,
        display_name: "Storyteller"@,
        token: host,
        game_id,
        model: pick_at(s, cfg, 0).model,
        backend: pick_at(s, cfg, 0).backend,
    }
}

/// The configuration of a player's session.
pub open spec fn player_config(
    s: SetupView,
    cfg: HarnessConfig,
    i: int,
    name: Seq<char>,
    token: Seq<char>,
    game_id: u64,
) -> AgentConfigView {
    AgentConfigView {
        role: AgentRole::Player { seat: SeatId((i % 256) as u8) },
        display_name: name,
        token,
        game_id,
        model: pick_at(s, cfg, i + 1).model,
        backend: pick_at(s, cfg, i + 1).backend,
    }
}

/// The configurations of all sessions: the Storyteller first, then the players in seat order,
/// each on its own pick.
pub open spec fn table_configs(
    s: SetupView,
    cfg: HarnessConfig,
    host: Seq<char>,
    names: Seq<Seq<char>>,
    players: Seq<Seq<char>>,
    game_id: u64,
) -> Seq<AgentConfigView> {
    seq![host_config(s, cfg, host, game_id)] + Seq::new(
        players.len(),
        |i: int| player_config(s, cfg, i, names[i], players[i], game_id),
    )
}

/// The pick of a session; the default model if the picks are out of sync.
fn choice_for(s: &Setup, cfg: &HarnessConfig, slot: usize) -> (c: SeatChoice)
    ensures
        c@ == pick_at(s@, *cfg, slot as int),
{
    if slot < s.seat_choices.len() {
        assert(s@.seat_choices[slot as int] == s.seat_choices@[slot as int]@);
        s.seat_choices[slot].clone()
    } else {
        SeatChoice { backend: Backend::Grok, model: cfg.model.clone() }
    }
}

/// Per-session configuration from the setup picker.
#[verifier::loop_isolation(false)]
pub fn agent_configs(s: &Setup, cfg: &HarnessConfig, t: &OpenTable) -> (v: Vec<AgentConfig>)
    requires
        t.player_names@.len() == t.player_tokens@.len(),
    ensures
        agents_view(v@) == table_configs(
            s@,
            *cfg,
            t.host_token@,
            texts(t.player_names@),
            secrets(t.player_tokens@),
            t.game_id,
        ),
{
    let ghost wanted = table_configs(
        s@,
        *cfg,
        t.host_token@,
        texts(t.player_names@),
        secrets(t.player_tokens@),
        t.game_id,
    );
    let host = choice_for(s, cfg, 0);
    let mut v: Vec<AgentConfig> = Vec::new();
    v.push(
        AgentConfig {
            role: AgentRole::Host,
            display_name: "Storyteller".to_owned(),
            token: t.host_token.as_str().to_owned(),
            game_id: t.game_id,
            model: host.model,
            backend: host.backend,
        },
    );
    let mut i: usize = 0;
    while i < t.player_tokens.len()
        invariant
            i <= t.player_tokens@.len(),
            v@.len() == i + 1,
            forall|k: int| 0 <= k <= i ==> (#[trigger] v@[k])@ == wanted[k],
        decreases t.player_tokens@.len() - i,
    {
        let c = choice_for(s, cfg, i + 1);
        v.push(
            AgentConfig {
                role: AgentRole::Player { seat: SeatId((i % 256) as u8) },
                display_name: t.player_names[i].clone(),
                token: t.player_tokens[i].as_str().to_owned(),
                game_id: t.game_id,
                model: c.model,
                backend: c.backend,
            },
        );
        i += 1;
    }
    assert(agents_view(v@) =~= wanted);
    v
}

/// What is said after the kickoff.
pub fn kickoff_status(game_id: u64, spawned: usize, sessions: usize) -> (s: String)
    ensures
        s@ == "Game "@ + dec(game_id as nat) + " · kicked "@ + dec(spawned as nat) + "/"@ + dec(
            sessions as nat,
        ) + " · Space=tick · click stream=think · wheel=scroll · q=quit"@,
{
    let mut s = numbered("Game ", game_id);
    s.append(" · kicked ");
    push_dec(&mut s, spawned as u64);
    s.append("/");
    push_dec(&mut s, sessions as u64);
    s.append(" · Space=tick · click stream=think · wheel=scroll · q=quit");
    s
}

// ---------------------------------------------------------------------------
// Laws
// ---------------------------------------------------------------------------

/// A launch never happens twice, nor without the agent proxy.
pub proof fn launches_are_guarded(s: SetupView, cfg: HarnessConfig, facts: LaunchFacts)
    requires
        facts.launched || !facts.mcp_ok,
    ensures
        refusal(s, cfg, facts) is Some,
{
}

/// The launched table is the one that was shown: with a full preview, the game is started with
/// the previewed characters, seat by seat.
pub proof fn launch_replays_the_preview(o: StartOpts, s: SetupView, cfg: HarnessConfig)
    requires
        opts_launch(o, s, cfg),
        s.setup_roles.len() == s.player_count,
    ensures
        o.assignments matches Some(v) && v@ == s.setup_roles,
{
}

/// Everybody at the table gets a session of their own, the Storyteller first, each with a token
/// of their own in seat order.
pub proof fn everybody_gets_a_session(
    s: SetupView,
    cfg: HarnessConfig,
    host: Seq<char>,
    names: Seq<Seq<char>>,
    players: Seq<Seq<char>>,
    game_id: u64,
    i: int,
)
    requires
        0 <= i < players.len() <= 256,
    ensures
        ({
            let all = table_configs(s, cfg, host, names, players, game_id);
            &&& all.len() == players.len() + 1
            &&& all[0].role is Host && all[0].token == host
            &&& all[i + 1].role == AgentRole::Player { seat: SeatId(i as u8) }
            &&& all[i + 1].token == players[i]
        }),
{
}

} // verus!
