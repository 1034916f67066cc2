//! MCP tool handlers.
//!
//! These functions are the semantic API that the transport calls after deserializing arguments.

use crate::auth::{is_secret, Actor, Token};
use crate::comms::{
    opt_text, EventId, PrivateMessage, PrivateMessageView, PublicEvent, PublicEventView,
    PublicLogView,
};
use crate::error::{GameError, ToolError};
use crate::game::ids::{GameId, SeatId};
use crate::game::night::{NightActionPayload, PendingWakeView};
use crate::game::phase::{phase_notation, phase_string, step_notation, step_string};
use crate::game::seat::{find_seat, seat_of, Seat};
use crate::game::setup::StartOpts;
use crate::game::st_policy::{HostDecision, RegistrationMode, StChoiceMode};
use crate::game::state::{
    credentials_differ, fresh_lobby, lobby_book, secrets, Game, GameView, MAX_PLAYERS, MIN_PLAYERS,
};
use crate::roles::data::{name_of, rules_path_of};
use crate::roles::{team_of, type_of, Character};
use crate::store::{GameStore, GameStoreView};
use rules_docs::{rules_topics, team_label, team_word, topic_for, type_label, type_word};
use vstd::prelude::*;
use vstd::string::*;

pub mod rules_docs;
pub mod rules_text;
pub mod views;

pub use rules_docs::{
    list_characters as list_character_pool, list_rules_topics, load_rules_topic,
    CharacterListEntry, RulesTopic,
};
pub use rules_text::rules_markdown_path;
pub use views::{
    AwaitingView, CharacterRulesView, HostDecisionView, HostPendingView, HostSeatView,
    HostStateView, PrivateStateView, PublicStateView,
};

verus! {

/// One seat’s credentials returned from [`create_game`].
pub struct PlayerSeatToken {
    pub seat_id: SeatId,
    pub name: String,
    pub player_token: Token,
}

/// Response for [`create_game`] / [`create_game_in_memory`].
pub struct CreateGameResponse {
    pub game_id: GameId,
    pub host_token: Token,
    pub players: Vec<PlayerSeatToken>,
}

/// The secrets in a list of player credentials.
pub open spec fn player_secrets(players: Seq<PlayerSeatToken>) -> Seq<Seq<char>> {
    players.map_values(|p: PlayerSeatToken| p.player_token@)
}

/// The response hands out the credentials of the fresh lobby `g`, which has these names, this
/// seed and, where one is given, this salt.
pub open spec fn is_created(
    resp: CreateGameResponse,
    g: GameView,
    names: Seq<String>,
    seed: u64,
    salt: Option<u64>,
) -> bool {
    &&& g.rng.the_seed() == seed
    &&& g.rng.the_salt() == g.secret_salt
    &&& salt matches Some(s) ==> g.secret_salt == s
    &&& g == fresh_lobby(
        GameId(0),
        seed,
        g.secret_salt,
        g.rng,
        names,
        lobby_book(resp.host_token@, player_secrets(resp.players@)),
    )
    &&& is_secret(resp.host_token@)
    &&& credentials_differ(resp.host_token@, player_secrets(resp.players@))
    &&& resp.players@.len() == names.len()
    &&& forall|i: int|
        0 <= i < names.len() ==> (#[trigger] resp.players@[i]).seat_id == SeatId(i as u8)
            && resp.players@[i].name == names[i] && is_secret(resp.players@[i].player_token@)
}

/// What creating a game does to the store: the lobby goes in under the next id.
pub open spec fn creates(
    before: GameStoreView,
    after: GameStoreView,
    resp: CreateGameResponse,
    names: Seq<String>,
    seed: u64,
    salt: Option<u64>,
) -> bool {
    &&& resp.game_id == GameId(before.next_id)
    &&& exists|g: GameView| #[trigger]
        is_created(resp, g, names, seed, salt) && after == before.inserted(g)
}

/// Create a lobby, issue host + player tokens, insert into `store`.
///
/// `secret_salt`: `None` → random salt (production); `Some(s)` → deterministic replay with
/// `seed`.
#[verifier::loop_isolation(false)]
pub fn create_game(
    store: &mut GameStore,
    names: Vec<String>,
    seed: u64,
    secret_salt: Option<u64>,
) -> (r: Result<CreateGameResponse, ToolError>)
    ensures
        match r {
            Ok(resp) => MIN_PLAYERS <= names@.len() <= MAX_PLAYERS && creates(
                old(store)@,
                final(store)@,
                resp,
                names@,
                seed,
                secret_salt,
            ),
            Err(e) => !(MIN_PLAYERS <= names@.len() <= MAX_PLAYERS) && final(store)@ == old(store)@
                && e == ToolError::Game(
                GameError::BadRequest("player count must be between 5 and 15 inclusive"),
            ),
        },
{
    let created = match secret_salt {
        Some(salt) => Game::create_with_salt(names, seed, salt),
        None => Game::create(names, seed),
    };
    let lobby = match created {
        Ok(lobby) => lobby,
        Err(e) => return Err(ToolError::Game(e)),
    };
    let mut players: Vec<PlayerSeatToken> = Vec::new();
    let mut i: usize = 0;
    while i < lobby.game.seats.len()
        invariant
            i <= lobby.game.seats@.len(),
            lobby.game.seats@.len() == names@.len(),
            lobby.player_tokens@.len() == names@.len(),
            players@.len() == i,
            forall|k: int|
                0 <= k < i ==> (#[trigger] players@[k]).seat_id == SeatId(k as u8)
                    && players@[k].name == names@[k] && players@[k].player_token@
                    == lobby.player_tokens@[k]@,
        decreases lobby.game.seats@.len() - i,
    {
        let seat = &lobby.game.seats[i];
        players.push(
            PlayerSeatToken {
                seat_id: seat.id,
                name: seat.display_name.clone(),
                player_token: lobby.player_tokens[i].clone(),
            },
        );
        i += 1;
    }
    assert(player_secrets(players@) =~= secrets(lobby.player_tokens@));
    let ghost g = lobby.game@;
    let game_id = store.insert(lobby.game);
    let resp = CreateGameResponse { game_id, host_token: lobby.host_token, players };
    assert(is_created(resp, g, names@, seed, secret_salt));
    Ok(resp)
}

/// Test helper: builds a lobby response only (ephemeral store is dropped).
///
/// Suitable for asserting token/shape fields; does **not** retain a live
/// [`GameStore`]. For stateful tests, use [`create_game`] with an owned store.
/// The lobby size must be legal (5–15).
pub fn create_game_in_memory(names: Vec<String>, seed: u64) -> (resp: CreateGameResponse)
    requires
        MIN_PLAYERS <= names@.len() <= MAX_PLAYERS,
    ensures
        resp.game_id == GameId(1),
        exists|g: GameView| is_created(resp, g, names@, seed, None),
{
    create_game_in_memory_with_salt(names, seed, None)
}

/// Like [`create_game_in_memory`] with optional fixed salt.
pub fn create_game_in_memory_with_salt(
    names: Vec<String>,
    seed: u64,
    secret_salt: Option<u64>,
) -> (resp:
    CreateGameResponse)
    requires
        MIN_PLAYERS <= names@.len() <= MAX_PLAYERS,
    ensures
        resp.game_id == GameId(1),
        exists|g: GameView| is_created(resp, g, names@, seed, secret_salt),
{
    let mut store = GameStore::new();
    let created = create_game(&mut store, names, seed, secret_salt);
    created.unwrap()
}

// ---------------------------------------------------------------------------
// Outcomes
// ---------------------------------------------------------------------------

/// How a tool request on a game comes out: granted with the stated state, or refused with the
/// stated error and the game as it was.
pub open spec fn tool_settles(
    outcome: Result<GameView, ToolError>,
    before: GameView,
    after: GameView,
    r: Result<(), ToolError>,
) -> bool {
    match outcome {
        Ok(g) => r == Ok::<(), ToolError>(()) && after == g,
        Err(e) => r == Err::<(), ToolError>(e) && after == before,
    }
}

/// An engine outcome as the tool layer reports it.
pub open spec fn as_tool(outcome: Result<GameView, GameError>) -> Result<GameView, ToolError> {
    match outcome {
        Ok(g) => Ok(g),
        Err(e) => Err(ToolError::Game(e)),
    }
}

/// An engine answer as the tool layer reports it.
pub open spec fn as_tool_answer(r: Result<(), GameError>) -> Result<(), ToolError> {
    match r {
        Ok(_) => Ok(()),
        Err(e) => Err(ToolError::Game(e)),
    }
}

fn lift(r: Result<(), GameError>) -> (t: Result<(), ToolError>)
    ensures
        t == as_tool_answer(r),
{
    match r {
        Ok(()) => Ok(()),
        Err(e) => Err(ToolError::Game(e)),
    }
}

/// The seat behind a player token, or the error that answers anyone else.
pub open spec fn player_seat(g: GameView, token: Seq<char>, host_answer: &'static str) -> Result<
    SeatId,
    ToolError,
> {
    match g.tokens.actor(token) {
        None => Err(ToolError::Unauthorized),
        Some(Actor::Host) => Err(ToolError::BadRequest(host_answer)),
        Some(Actor::Player { seat }) => Ok(seat),
    }
}

fn require_player(game: &Game, token: &Token, host_answer: &'static str) -> (r: Result<
    SeatId,
    ToolError,
>)
    ensures
        r == player_seat(game@, token@, host_answer),
{
    match game.tokens.resolve(token) {
        None => Err(ToolError::Unauthorized),
        Some(Actor::Host) => Err(ToolError::BadRequest(host_answer)),
        Some(Actor::Player { seat }) => Ok(seat),
    }
}

/// Host locks lobby, assigns bag, enters First Night (and runs the night to its first choice).
pub fn start_game(game: &mut Game, host: &Token, opts: StartOpts) -> (r: Result<(), ToolError>)
    ensures
        final(game)@ == old(game)@.started(host@, opts).0,
        r == as_tool_answer(old(game)@.started(host@, opts).1),
{
    lift(game.start_game(host, opts))
}

// ---------------------------------------------------------------------------
// Views
// ---------------------------------------------------------------------------

impl PublicStateView {
    /// The view shows the public side of the game.
    pub open spec fn shows(self, g: GameView) -> bool {
        self.phase@ == phase_notation(g.phase) && self.seats@ == g.roster() && self.winner
            == g.winner
    }
}

/// Host or player: public snapshot (no roles, **no** pending night seat).
///
/// Night order leakage: pending wake seat is **not** returned here. The acting
/// seat sees it via [`get_private_state`]; the host via [`get_host_state`].
pub fn get_public_state(game: &Game, token: &Token) -> (r: Result<PublicStateView, ToolError>)
    ensures
        match game@.tokens.actor(token@) {
            None => r == Err::<PublicStateView, ToolError>(ToolError::Unauthorized),
            Some(_) => r matches Ok(v) && v.shows(game@),
        },
{
    if game.tokens.resolve(token).is_none() {
        return Err(ToolError::Unauthorized);
    }
    Ok(
        PublicStateView {
            phase: phase_string(&game.phase),
            seats: game.public_seats(),
            winner: game.winner,
        },
    )
}

/// What a list of events says.
pub open spec fn public_entries(v: Seq<(EventId, PublicEvent)>) -> Seq<(EventId, PublicEventView)> {
    v.map_values(|e: (EventId, PublicEvent)| (e.0, e.1@))
}

/// What a list of private messages says.
pub open spec fn private_entries(v: Seq<(EventId, PrivateMessage)>) -> Seq<
    (EventId, PrivateMessageView),
> {
    v.map_values(|e: (EventId, PrivateMessage)| (e.0, e.1@))
}

/// Host or player: public log after cursor.
#[verifier::loop_isolation(false)]
pub fn get_public_log(game: &Game, token: &Token, cursor: EventId) -> (r: Result<
    Vec<(EventId, PublicEvent)>,
    ToolError,
>)
    ensures
        match game@.tokens.actor(token@) {
            None => r == Err::<Vec<(EventId, PublicEvent)>, ToolError>(ToolError::Unauthorized),
            Some(_) => r matches Ok(v) && public_entries(v@) == game@.public_log.since(cursor),
        },
{
    if game.tokens.resolve(token).is_none() {
        return Err(ToolError::Unauthorized);
    }
    let refs = game.public_log.since(cursor);
    let mut v: Vec<(EventId, PublicEvent)> = Vec::new();
    let mut i: usize = 0;
    while i < refs.len()
        invariant
            i <= refs@.len(),
            v@.len() == i,
            forall|k: int|
                0 <= k < i ==> (#[trigger] v@[k]).0 == refs@[k].0 && v@[k].1@ == refs@[k].1@,
        decreases refs@.len() - i,
    {
        v.push((refs[i].0, refs[i].1.clone()));
        i += 1;
    }
    assert(public_entries(v@) =~= game@.public_log.since(cursor)) by {
        assert(crate::comms::public_refs(refs@).len() == refs@.len());
        assert forall|k: int| 0 <= k < v@.len() implies public_entries(v@)[k]
            == game@.public_log.since(cursor)[k] by {
            assert(crate::comms::public_refs(refs@)[k] == (refs@[k].0, refs@[k].1@));
        }
    }
    Ok(v)
}

/// The wake that this seat must answer.
pub open spec fn awaited(g: GameView, seat: SeatId) -> Option<PendingWakeView> {
    match g.pending_night {
        Some(p) => if p.seat == seat { Some(p) } else { None },
        None => None,
    }
}

impl AwaitingView {
    /// The view shows a pending wake.
    pub open spec fn shows(self, wake: PendingWakeView) -> bool {
        self.action@ == "night"@ && self.prompt@ == wake.prompt && self.schema == wake.schema
    }
}

impl PrivateStateView {
    /// The view shows what the player at this seat may see, from the cursor on: the face and
    /// never the true character behind it, the own inbox, the own wake.
    pub open spec fn shows(self, g: GameView, s: Seat, seat: SeatId, cursor: EventId) -> bool {
        &&& self.seat == seat
        &&& self.name == s.display_name
        &&& self.alive == s.alive
        &&& opt_text(self.character_label) == match s.face() {
            Some(c) => Some(name_of(c)),
            None => None,
        }
        &&& opt_text(self.team_label) == match s.face() {
            Some(c) => Some(team_word(team_of(c))),
            None => None,
        }
        &&& opt_text(self.rules_path) == match s.face() {
            Some(c) => Some(rules_path_of(c)),
            None => None,
        }
        &&& private_entries(self.private_messages_since@) == g.private_inboxes.since(seat, cursor)
        &&& self.awaiting_action == (awaited(g, seat) is Some)
        &&& match (self.awaiting, awaited(g, seat)) {
            (Some(v), Some(wake)) => v.shows(wake),
            (None, None) => true,
            _ => false,
        }
    }
}

#[verifier::loop_isolation(false)]
fn private_messages(game: &Game, seat: SeatId, cursor: EventId) -> (v: Vec<
    (EventId, PrivateMessage),
>)
    ensures
        private_entries(v@) == game@.private_inboxes.since(seat, cursor),
{
    let refs = game.private_inboxes.since(seat, cursor);
    let mut v: Vec<(EventId, PrivateMessage)> = Vec::new();
    let mut i: usize = 0;
    while i < refs.len()
        invariant
            i <= refs@.len(),
            v@.len() == i,
            forall|k: int|
                0 <= k < i ==> (#[trigger] v@[k]).0 == refs@[k].0 && v@[k].1@ == refs@[k].1@,
        decreases refs@.len() - i,
    {
        v.push((refs[i].0, refs[i].1.clone()));
        i += 1;
    }
    assert(private_entries(v@) =~= crate::comms::private_refs(refs@));
    v
}

/// Player only: identity + private ST inbox.
pub fn get_private_state(game: &Game, token: &Token, private_cursor: EventId) -> (r: Result<
    PrivateStateView,
    ToolError,
>)
    ensures
        match player_seat(game@, token@, "host has no private player state") {
            Err(e) => r == Err::<PrivateStateView, ToolError>(e),
            Ok(seat) => match seat_of(game@.seats, seat) {
                None => r == Err::<PrivateStateView, ToolError>(
                    ToolError::Game(GameError::NoSuchSeat),
                ),
                Some(s) => r matches Ok(v) && v.shows(game@, s, seat, private_cursor),
            },
        },
{
    let seat_id = match require_player(game, token, "host has no private player state") {
        Ok(seat) => seat,
        Err(e) => return Err(e),
    };
    let i = match find_seat(&game.seats, seat_id) {
        Some(i) => i,
        None => return Err(ToolError::Game(GameError::NoSuchSeat)),
    };
    let seat = &game.seats[i];
    let awaiting = match &game.pending_night {
        Some(p) => {
            if p.seat == seat_id {
                Some(
                    AwaitingView { action: "night", prompt: p.prompt.clone(), schema: p.schema },
                )
            } else {
                None
            }
        },
        None => None,
    };
    let (character_label, team, rules_path) = match seat.visible_character() {
        Some(c) => (
            Some(c.display_name().to_owned()),
            Some(team_label(c.team()).to_owned()),
            Some(c.rules_doc_path().to_owned()),
        ),
        None => (None, None, None),
    };
    Ok(
        PrivateStateView {
            seat: seat_id,
            name: seat.display_name.clone(),
            alive: seat.alive,
            character_label,
            team_label: team,
            rules_path,
            private_messages_since: private_messages(game, seat_id, private_cursor),
            awaiting_action: awaiting.is_some(),
            awaiting,
        },
    )
}

/// What an optional static string says.
pub open spec fn opt_str(s: Option<&'static str>) -> Option<Seq<char>> {
    match s {
        Some(t) => Some(t@),
        None => None,
    }
}

/// The name of an optional character.
pub open spec fn opt_name(c: Option<Character>) -> Option<Seq<char>> {
    match c {
        Some(c) => Some(name_of(c)),
        None => None,
    }
}

fn opt_display_name(c: Option<Character>) -> (s: Option<&'static str>)
    ensures
        opt_str(s) == opt_name(c),
{
    match c {
        Some(c) => Some(c.display_name()),
        None => None,
    }
}

impl HostSeatView {
    /// The view shows everything about a seat.
    pub open spec fn shows(self, s: Seat) -> bool {
        &&& self.seat_id == s.id
        &&& self.name == s.display_name
        &&& self.alive == s.alive
        &&& self.ghost_vote_available == s.ghost_vote_available
        &&& opt_str(self.true_character) == opt_name(s.true_character)
        &&& opt_str(self.believed_character) == opt_name(s.believed_character)
        &&& self.poisoned == s.poisoned
        &&& self.is_drunk_outsider == s.is_drunk_outsider
        &&& self.monk_protected_tonight == s.monk_protected_tonight
        &&& self.slayer_used == s.slayer_used
        &&& self.virgin_ability_used == s.virgin_ability_used
        &&& self.butler_master == s.butler_master
    }
}

impl HostPendingView {
    /// The view shows a pending wake and its step.
    pub open spec fn shows(self, wake: PendingWakeView) -> bool {
        self.seat_id == wake.seat && self.prompt@ == wake.prompt && self.schema == wake.schema
            && self.step_debug@ == step_notation(wake.step)
    }
}

/// The word for a registration mode.
pub open spec fn registration_word(m: RegistrationMode) -> Seq<char> {
    match m {
        RegistrationMode::Random => "Random"@,
        RegistrationMode::AlwaysTrue => "AlwaysTrue"@,
        RegistrationMode::AlwaysMisreg => "AlwaysMisreg"@,
    }
}

/// The word for a choice mode.
pub open spec fn choice_word(m: StChoiceMode) -> Seq<char> {
    match m {
        StChoiceMode::HostFirst => "HostFirst"@,
        StChoiceMode::Random => "Random"@,
    }
}

impl HostStateView {
    /// The view shows the whole grimoire.
    pub open spec fn shows(self, g: GameView) -> bool {
        &&& self.seed == g.seed
        &&& self.secret_salt == g.secret_salt
        &&& self.phase@ == phase_notation(g.phase)
        &&& self.seats@.len() == g.seats.len()
        &&& forall|i: int| 0 <= i < g.seats.len() ==> (#[trigger] self.seats@[i]).shows(g.seats[i])
        &&& match (self.pending, g.pending_night) {
            (Some(v), Some(wake)) => v.shows(wake),
            (None, None) => true,
            _ => false,
        }
        &&& match (self.pending_host, g.pending_host) {
            (Some(v), Some(p)) => v.shows(p),
            (None, None) => true,
            _ => false,
        }
        &&& self.registration_mode@ == registration_word(g.registration_mode)
        &&& self.st_choice_mode@ == choice_word(g.st_choice_mode)
        &&& self.host_lie_queue_len == g.host_lie_queue.len()
        &&& self.red_herring == g.red_herring
        &&& self.demon_bluffs@.len() == g.demon_bluffs.len()
        &&& forall|i: int|
            0 <= i < g.demon_bluffs.len() ==> (#[trigger] self.demon_bluffs@[i])@ == name_of(
                g.demon_bluffs[i],
            )
        &&& self.winner == g.winner
    }
}

fn host_seats(game: &Game) -> (v: Vec<HostSeatView>)
    ensures
        v@.len() == game@.seats.len(),
        forall|i: int| 0 <= i < v@.len() ==> (#[trigger] v@[i]).shows(game@.seats[i]),
{
    let mut v: Vec<HostSeatView> = Vec::new();
    let mut i: usize = 0;
    while i < game.seats.len()
        invariant
            i <= game.seats@.len(),
            v@.len() == i,
            forall|k: int| 0 <= k < i ==> (#[trigger] v@[k]).shows(game@.seats[k]),
        decreases game.seats@.len() - i,
    {
        let s = &game.seats[i];
        v.push(
            HostSeatView {
                seat_id: s.id,
                name: s.display_name.clone(),
                alive: s.alive,
                ghost_vote_available: s.ghost_vote_available,
                true_character: opt_display_name(s.true_character),
                believed_character: opt_display_name(s.believed_character),
                poisoned: s.poisoned,
                is_drunk_outsider: s.is_drunk_outsider,
                monk_protected_tonight: s.monk_protected_tonight,
                slayer_used: s.slayer_used,
                virgin_ability_used: s.virgin_ability_used,
                butler_master: s.butler_master,
            },
        );
        i += 1;
    }
    v
}

fn bluff_names(game: &Game) -> (v: Vec<&'static str>)
    ensures
        v@.len() == game@.demon_bluffs.len(),
        forall|i: int| 0 <= i < v@.len() ==> (#[trigger] v@[i])@ == name_of(game@.demon_bluffs[i]),
{
    let mut v: Vec<&'static str> = Vec::new();
    let mut i: usize = 0;
    while i < game.demon_bluffs.len()
        invariant
            i <= game.demon_bluffs@.len(),
            v@.len() == i,
            forall|k: int| 0 <= k < i ==> (#[trigger] v@[k])@ == name_of(game@.demon_bluffs[k]),
        decreases game.demon_bluffs@.len() - i,
    {
        v.push(game.demon_bluffs[i].display_name());
        i += 1;
    }
    v
}

/// Host only: full grimoire (true roles), pending wake, seed.
pub fn get_host_state(game: &Game, token: &Token) -> (r: Result<HostStateView, ToolError>)
    ensures
        if game@.is_host(token@) {
            r matches Ok(v) && v.shows(game@)
        } else {
            r == Err::<HostStateView, ToolError>(ToolError::Unauthorized)
        },
{
    match game.tokens.resolve(token) {
        Some(Actor::Host) => {},
        _ => return Err(ToolError::Unauthorized),
    }
    let pending = match &game.pending_night {
        Some(p) => Some(
            HostPendingView {
                seat_id: p.seat,
                prompt: p.prompt.clone(),
                schema: p.schema,
                step_debug: step_string(p.step),
            },
        ),
        None => None,
    };
    let pending_host = match &game.pending_host {
        Some(p) => Some(HostDecisionView::from_pending(p)),
        None => None,
    };
    let registration_mode = match game.registration_mode {
        RegistrationMode::Random => "Random",
        RegistrationMode::AlwaysTrue => "AlwaysTrue",
        RegistrationMode::AlwaysMisreg => "AlwaysMisreg",
    };
    let st_choice_mode = match game.st_choice_mode {
        StChoiceMode::HostFirst => "HostFirst",
        StChoiceMode::Random => "Random",
    };
    Ok(
        HostStateView {
            seed: game.seed,
            secret_salt: game.secret_salt,
            phase: phase_string(&game.phase),
            seats: host_seats(game),
            pending,
            pending_host,
            registration_mode: registration_mode.to_owned(),
            st_choice_mode: st_choice_mode.to_owned(),
            host_lie_queue_len: game.host_lie_queue.len(),
            red_herring: game.red_herring,
            demon_bluffs: bluff_names(game),
            winner: game.winner,
        },
    )
}

// ---------------------------------------------------------------------------
// Speech
// ---------------------------------------------------------------------------

/// The id of the last event that a reader from the start gets, 0 if there is none.
pub open spec fn last_event_id(log: PublicLogView) -> EventId {
    let all = log.since(0);
    if all.len() == 0 { 0 } else { all.last().0 }
}

fn last_id(game: &Game) -> (id: EventId)
    ensures
        id == last_event_id(game@.public_log),
{
    let all = game.public_log.since(0);
    assert(crate::comms::public_refs(all@).len() == all@.len());
    if all.len() == 0 {
        0
    } else {
        assert(crate::comms::public_refs(all@).last() == (all@.last().0, all@.last().1@));
        all[all.len() - 1].0
    }
}

/// Player speech → public log only. No `to` / whisper args.
pub fn say(game: &mut Game, token: &Token, text: String) -> (r: Result<EventId, ToolError>)
    ensures
        match player_seat(old(game)@, token@, "players use say; host uses st_announce") {
            Err(e) => r == Err::<EventId, ToolError>(e) && final(game)@ == old(game)@,
            Ok(seat) => match old(game)@.said(seat, text@, None) {
                Err(e) => r == Err::<EventId, ToolError>(ToolError::Game(e)) && final(game)@
                    == old(game)@,
                Ok(g) => final(game)@ == g && r == Ok::<EventId, ToolError>(
                    last_event_id(g.public_log),
                ),
            },
        },
{
    let seat = match require_player(game, token, "players use say; host uses st_announce") {
        Ok(seat) => seat,
        Err(e) => return Err(e),
    };
    if let Err(e) = game.say(seat, text, None) {
        return Err(ToolError::Game(e));
    }
    Ok(last_id(game))
}

/// Host: public storyteller announcement.
pub fn st_announce(game: &mut Game, host: &Token, text: String) -> (r: Result<EventId, ToolError>)
    ensures
        if old(game)@.is_host(host@) {
            final(game)@ == old(game)@.announce(text@) && r == Ok::<EventId, ToolError>(
                last_event_id(final(game)@.public_log),
            )
        } else {
            r == Err::<EventId, ToolError>(ToolError::Unauthorized) && final(game)@ == old(game)@
        },
{
    match game.tokens.resolve(host) {
        Some(Actor::Host) => {},
        _ => return Err(ToolError::Unauthorized),
    }
    game.st_announce(text);
    Ok(last_id(game))
}

// ---------------------------------------------------------------------------
// Rules
// ---------------------------------------------------------------------------

/// Public character sheet entry. `text` is what the character's rules file holds, `None` where
/// it cannot be read. Not secret.
pub fn get_character_rules(character: Character, text: Option<String>) -> (r: Result<
    CharacterRulesView,
    ToolError,
>)
    ensures
        match text {
            None => r == Err::<CharacterRulesView, ToolError>(
                ToolError::BadRequest("character rules file missing"),
            ),
            Some(body) => r matches Ok(v) && v.name@ == name_of(character) && v.path@
                == rules_path_of(character) && v.team@ == team_word(team_of(character))
                && v.character_type@ == type_word(type_of(character)) && v.text == body,
        },
{
    match text {
        None => Err(ToolError::BadRequest("character rules file missing")),
        Some(body) => Ok(
            CharacterRulesView {
                name: character.display_name(),
                path: character.rules_doc_path(),
                team: team_label(character.team()).to_owned(),
                character_type: type_label(character.character_type()).to_owned(),
                text: body,
            },
        ),
    }
}

/// Public list of rules topics (ids + titles). No game secrets.
pub fn get_rules_topics() -> (v: Vec<RulesTopic>)
    ensures
        v@ == rules_topics(),
{
    list_rules_topics()
}

/// One public rules topic by id (e.g. `gameplay_loop`) with the text of its file.
pub fn get_rules_topic(topic_id: &str, text: Option<String>) -> (r: Result<
    (RulesTopic, String),
    ToolError,
>)
    ensures
        match topic_for(rules_topics(), topic_id@) {
            None => r == Err::<(RulesTopic, String), ToolError>(
                ToolError::BadRequest("unknown rules topic; call list_rules_topics for ids"),
            ),
            Some(topic) => match text {
                None => r == Err::<(RulesTopic, String), ToolError>(
                    ToolError::BadRequest("rules topic file missing"),
                ),
                Some(body) => r == Ok::<(RulesTopic, String), ToolError>((topic, body)),
            },
        },
{
    load_rules_topic(topic_id, text)
}

/// Full TB character pool (names, types, paths). No in-play secrets.
pub fn get_character_list() -> (v: Vec<CharacterListEntry>)
    ensures
        v@.len() == crate::roles::full_pool().len(),
        forall|i: int|
            0 <= i < v@.len() ==> rules_docs::describes(
                #[trigger] v@[i],
                crate::roles::full_pool()[i],
            ),
{
    list_character_pool()
}

// ---------------------------------------------------------------------------
// Play
// ---------------------------------------------------------------------------

pub fn night_action(game: &mut Game, token: &Token, payload: NightActionPayload) -> (r: Result<
    (),
    ToolError,
>)
    ensures
        tool_settles(
            as_tool(old(game)@.night_action_by(token@, payload)),
            old(game)@,
            final(game)@,
            r,
        ),
{
    lift(game.night_action(token, payload))
}

/// Host only: apply default for pending wake (or pending host decision) and continue the night.
pub fn skip_night_action(game: &mut Game, host: &Token) -> (r: Result<(), ToolError>)
    ensures
        final(game)@ == old(game)@.skipped(host@).0,
        r == as_tool_answer(old(game)@.skipped(host@).1),
{
    lift(game.skip_night_action(host))
}

/// A request that only the host may make.
pub open spec fn by_host(
    g: GameView,
    host: Seq<char>,
    outcome: Result<GameView, GameError>,
) -> Result<
    GameView,
    ToolError,
> {
    if g.is_host(host) { as_tool(outcome) } else { Err(ToolError::Game(GameError::Unauthorized)) }
}

/// Host only: resolve Mayor bounce / starpass pick.
pub fn host_decide(game: &mut Game, host: &Token, decision: HostDecision) -> (r: Result<
    (),
    ToolError,
>)
    ensures
        tool_settles(
            by_host(old(game)@, host@, old(game)@.host_decided(decision)),
            old(game)@,
            final(game)@,
            r,
        ),
{
    lift(game.host_decide(host, decision))
}

/// Host only: enqueue free-text false info for the next disabled info result (FIFO).
pub fn host_queue_lie(game: &mut Game, host: &Token, text: String) -> (r: Result<(), ToolError>)
    ensures
        tool_settles(
            by_host(
                old(game)@,
                host@,
                Ok(
                    GameView {
                        host_lie_queue: old(game)@.host_lie_queue.push(text@),
                        ..old(game)@
                    },
                ),
            ),
            old(game)@,
            final(game)@,
            r,
        ),
{
    lift(game.host_queue_lie(host, text))
}

/// Host: Discussion → Nominations.
pub fn open_nominations(game: &mut Game, host: &Token) -> (r: Result<(), ToolError>)
    ensures
        tool_settles(
            as_tool(old(game)@.host_request(host@, old(game)@.nominations_opened())),
            old(game)@,
            final(game)@,
            r,
        ),
{
    lift(game.open_nominations(host))
}

/// A request of a player.
pub open spec fn by_player(
    g: GameView,
    token: Seq<char>,
    host_answer: &'static str,
    outcome: spec_fn(SeatId) -> Result<GameView, GameError>,
) -> Result<GameView, ToolError> {
    match player_seat(g, token, host_answer) {
        Err(e) => Err(e),
        Ok(seat) => as_tool(outcome(seat)),
    }
}

/// Player: nominate a living target (once per day each way).
pub fn nominate(game: &mut Game, token: &Token, target: SeatId) -> (r: Result<(), ToolError>)
    ensures
        tool_settles(
            by_player(
                old(game)@,
                token@,
                "host cannot nominate",
                |seat: SeatId| old(game)@.nominated(seat, target),
            ),
            old(game)@,
            final(game)@,
            r,
        ),
{
    match require_player(game, token, "host cannot nominate") {
        Ok(by) => lift(game.nominate(by, target)),
        Err(e) => Err(e),
    }
}

/// Player: cast yes/no on the open nomination (`nominee` must match current).
pub fn vote(game: &mut Game, token: &Token, nominee: SeatId, support: bool) -> (r: Result<
    (),
    ToolError,
>)
    ensures
        tool_settles(
            by_player(
                old(game)@,
                token@,
                "host cannot vote",
                |seat: SeatId| old(game)@.voted(seat, nominee, support),
            ),
            old(game)@,
            final(game)@,
            r,
        ),
{
    match require_player(game, token, "host cannot vote") {
        Ok(seat) => lift(game.vote(seat, nominee, support)),
        Err(e) => Err(e),
    }
}

/// Dead player: abstain without spending the ghost vote (enables auto-close).
pub fn pass_vote(game: &mut Game, token: &Token) -> (r: Result<(), ToolError>)
    ensures
        tool_settles(
            by_player(
                old(game)@,
                token@,
                "host cannot pass_vote",
                |seat: SeatId| old(game)@.passed(seat),
            ),
            old(game)@,
            final(game)@,
            r,
        ),
{
    match require_player(game, token, "host cannot pass_vote") {
        Ok(seat) => lift(game.pass_vote(seat)),
        Err(e) => Err(e),
    }
}

/// Host: close the current vote window (also auto-runs when living + ghost-holders responded).
pub fn close_vote(game: &mut Game, host: &Token) -> (r: Result<(), ToolError>)
    ensures
        tool_settles(
            by_host(old(game)@, host@, old(game)@.vote_closed()),
            old(game)@,
            final(game)@,
            r,
        ),
{
    lift(game.close_vote(host))
}

/// Host: execute the vote leader (if any), then begin the next night if ongoing.
pub fn end_nominations(game: &mut Game, host: &Token) -> (r: Result<(), ToolError>)
    ensures
        tool_settles(
            as_tool(old(game)@.host_request(host@, old(game)@.nominations_ended())),
            old(game)@,
            final(game)@,
            r,
        ),
{
    lift(game.end_nominations(host))
}

/// Player day ability payload (Slayer slay for TB).
#[derive(Debug, Clone, Copy, PartialEq, Eq, Structural)]
pub enum DayActionPayload {
    Slay { target: SeatId },
}

/// Player: once-per-game day ability (Slayer).
pub fn day_action(game: &mut Game, token: &Token, payload: DayActionPayload) -> (r: Result<
    (),
    ToolError,
>)
    ensures
        tool_settles(
            by_player(
                old(game)@,
                token@,
                "host cannot use day_action",
                |seat: SeatId|
                    match payload {
                        DayActionPayload::Slay { target } => old(game)@.slew(seat, target),
                    },
            ),
            old(game)@,
            final(game)@,
            r,
        ),
{
    match require_player(game, token, "host cannot use day_action") {
        Ok(seat) => match payload {
            DayActionPayload::Slay { target } => lift(game.day_action_slay(seat, target)),
        },
        Err(e) => Err(e),
    }
}

/// A token that nobody was issued opens no door: every view and every request it is presented
/// with is refused as unauthorized.
pub proof fn strangers_are_refused(g: GameView, token: Seq<char>, host_answer: &'static str)
    requires
        g.tokens.actor(token) is None,
    ensures
        player_seat(g, token, host_answer) == Err::<SeatId, ToolError>(ToolError::Unauthorized),
        !g.is_host(token),
{
}

/// What a player sees of the own seat does not depend on the other seats' characters, nor on the
/// true character behind the own face: two tables on which the own seat faces, lives and is
/// addressed alike give views of the same content.
pub proof fn private_view_hides_the_rest(
    v: PrivateStateView,
    g: GameView,
    s: Seat,
    h: GameView,
    t: Seat,
    seat: SeatId,
    cursor: EventId,
)
    requires
        v.shows(g, s, seat, cursor),
        s.display_name == t.display_name,
        s.alive == t.alive,
        s.face() == t.face(),
        g.private_inboxes.since(seat, cursor) == h.private_inboxes.since(seat, cursor),
        awaited(g, seat) == awaited(h, seat),
    ensures
        v.shows(h, t, seat, cursor),
{
}

} // verus!
