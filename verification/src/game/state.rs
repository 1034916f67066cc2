//! `Game` aggregate: seats, phase, comms handles, win state.

use crate::auth::{is_secret, issued_token_resolves, Actor, Token, TokenBook, TokenBookView};
use crate::comms::{
    PrivateInboxes, PrivateInboxesView, PrivateMessage, PrivateMessageView, PublicEvent,
    PublicEventView, PublicLog, PublicLogView,
};
use crate::error::GameError;
use crate::game::day::{ClosedNomination, OpenNomination, OpenNominationView};
use crate::game::ids::{holds_seat, GameId, SeatId};
use crate::game::night::{PendingWake, PendingWakeView};
use crate::game::phase::{NightStep, Phase, Winner};
use crate::game::seat::{find_seat, seat_of, Seat};
use crate::game::st_policy::{PendingHostDecision, RegistrationMode, StChoiceMode};
use crate::rng::{random_u64, SeededRng};
use crate::roles::{Character, Team};
use crate::text::texts;
use std::collections::VecDeque;
use vstd::prelude::*;
use vstd::string::*;

verus! {

/// Trouble Brewing table size (inclusive).
pub const MIN_PLAYERS: usize = 5;

pub const MAX_PLAYERS: usize = 15;

/// Max directed public `say`s **sent** or **received** per seat per discussion day.
/// Prevents infinite wake ping-pong while keeping the table log fully public.
pub const DIRECTED_SAY_CAP: u32 = 6;

/// The team of a winner.
pub open spec fn team_of_winner(w: Winner) -> Team {
    match w {
        Winner::Good => Team::Good,
        Winner::Evil => Team::Evil,
    }
}

impl From<Winner> for Team {
    fn from(w: Winner) -> (t: Team) {
        match w {
            Winner::Good => Team::Good,
            Winner::Evil => Team::Evil,
        }
    }
}

impl vstd::std_specs::convert::FromSpecImpl<Winner> for Team {
    open spec fn obeys_from_spec() -> bool {
        true
    }

    open spec fn from_spec(w: Winner) -> Team {
        team_of_winner(w)
    }
}

/// Public projection of a seat (no characters).
#[derive(Debug, Clone)]
pub struct PublicSeatView {
    pub id: SeatId,
    pub name: String,
    pub alive: bool,
    pub ghost_vote_available: bool,
}

pub struct Game {
    pub id: GameId,
    pub seed: u64,
    /// Per-game secret salt mixed into every RNG substream. Host-only; never player views.
    pub secret_salt: u64,
    pub rng: SeededRng,
    pub phase: Phase,
    pub seats: Vec<Seat>,
    pub tokens: TokenBook,
    pub public_log: PublicLog,
    pub private_inboxes: PrivateInboxes,
    pub winner: Option<Winner>,
    /// Fortune Teller red herring seat, if FT in play.
    pub red_herring: Option<SeatId>,
    /// Three not-in-play good characters shown to Imp (7+).
    pub demon_bluffs: Vec<Character>,
    /// Concrete night steps for the current night (FirstNight or Night).
    pub night_queue: Vec<NightStep>,
    /// Index into `night_queue` (mirrors phase cursor while in night).
    pub night_cursor: usize,
    /// Active player wake, if the night machine is waiting on a choice.
    pub pending_night: Option<PendingWake>,
    /// Host Storyteller decision (Mayor / starpass / night info / day reg); pauses progress.
    pub pending_host: Option<PendingHostDecision>,
    /// Spy/Recluse registration policy for the random/skip path.
    pub registration_mode: RegistrationMode,
    /// Host-first (default) vs immediate random Storyteller discretion.
    pub st_choice_mode: StChoiceMode,
    /// FIFO free-text lies for disabled info roles (host-authored; else seeded-random).
    pub host_lie_queue: VecDeque<String>,
    /// Seats that died during the current night (demon kill, etc.).
    pub deaths_tonight: Vec<SeatId>,
    /// Seat executed during the current day, if any (Undertaker eligibility).
    pub executed_today: Option<SeatId>,
    /// Living seats that have already nominated today.
    pub day_nominators: Vec<SeatId>,
    /// Seats that have already been nominated today.
    pub day_nominees: Vec<SeatId>,
    /// Open nomination with in-progress vote window, if any.
    pub current_nomination: Option<OpenNomination>,
    /// Closed nominations today (yes tallies for leader comparison).
    pub closed_nominations: Vec<ClosedNomination>,
    /// Seat that should be woken next because someone directed a public `say` at them.
    /// Honoured only during Day Discussion by the harness scheduler.
    pub pending_directed_wake: Option<SeatId>,
    /// Directed says **sent** by each seat this discussion day (index = seat id).
    pub directed_say_sent: Vec<u32>,
    /// Directed says **received** by each seat this discussion day (index = seat id).
    pub directed_say_received: Vec<u32>,
}

/// The state of a game as plain values: what contracts and laws speak of.
pub struct GameView {
    pub id: GameId,
    pub seed: u64,
    pub secret_salt: u64,
    pub rng: SeededRng,
    pub phase: Phase,
    pub seats: Seq<Seat>,
    pub tokens: TokenBookView,
    pub public_log: PublicLogView,
    pub private_inboxes: PrivateInboxesView,
    pub winner: Option<Winner>,
    pub red_herring: Option<SeatId>,
    pub demon_bluffs: Seq<Character>,
    pub night_queue: Seq<NightStep>,
    pub night_cursor: usize,
    pub pending_night: Option<PendingWakeView>,
    pub pending_host: Option<PendingHostDecision>,
    pub registration_mode: RegistrationMode,
    pub st_choice_mode: StChoiceMode,
    pub host_lie_queue: Seq<Seq<char>>,
    pub deaths_tonight: Seq<SeatId>,
    pub executed_today: Option<SeatId>,
    pub day_nominators: Seq<SeatId>,
    pub day_nominees: Seq<SeatId>,
    pub current_nomination: Option<OpenNominationView>,
    pub closed_nominations: Seq<ClosedNomination>,
    pub pending_directed_wake: Option<SeatId>,
    pub directed_say_sent: Seq<u32>,
    pub directed_say_received: Seq<u32>,
}

impl View for Game {
    type V = GameView;

    open spec fn view(&self) -> GameView {
        GameView {
            id: self.id,
            seed: self.seed,
            secret_salt: self.secret_salt,
            rng: self.rng,
            phase: self.phase,
            seats: self.seats@,
            tokens: self.tokens@,
            public_log: self.public_log@,
            private_inboxes: self.private_inboxes@,
            winner: self.winner,
            red_herring: self.red_herring,
            demon_bluffs: self.demon_bluffs@,
            night_queue: self.night_queue@,
            night_cursor: self.night_cursor,
            pending_night: match self.pending_night {
                Some(p) => Some(p@),
                None => None,
            },
            pending_host: self.pending_host,
            registration_mode: self.registration_mode,
            st_choice_mode: self.st_choice_mode,
            host_lie_queue: texts(self.host_lie_queue@),
            deaths_tonight: self.deaths_tonight@,
            executed_today: self.executed_today,
            day_nominators: self.day_nominators@,
            day_nominees: self.day_nominees@,
            current_nomination: match self.current_nomination {
                Some(o) => Some(o@),
                None => None,
            },
            closed_nominations: self.closed_nominations@,
            pending_directed_wake: self.pending_directed_wake,
            directed_say_sent: self.directed_say_sent@,
            directed_say_received: self.directed_say_received@,
        }
    }
}

/// How a request on a game comes out: it is granted and the game moves to the stated state, or
/// it is refused with the stated error and the game stays as it was.
pub open spec fn settles(
    outcome: Result<GameView, GameError>,
    before: GameView,
    after: GameView,
    r: Result<(), GameError>,
) -> bool {
    match outcome {
        Ok(g) => r == Ok::<(), GameError>(()) && after == g,
        Err(e) => r == Err::<(), GameError>(e) && after == before,
    }
}

impl GameView {
    /// The game with one more public event.
    pub open spec fn publish(self, event: PublicEventView) -> GameView {
        GameView { public_log: self.public_log.push(event), ..self }
    }

    /// The game with one more Storyteller announcement.
    pub open spec fn announce(self, text: Seq<char>) -> GameView {
        GameView { public_log: self.public_log.announce(text), ..self }
    }

    /// The game with one more private message.
    pub open spec fn whisper(self, seat: SeatId, msg: PrivateMessageView) -> GameView {
        GameView { private_inboxes: self.private_inboxes.push(seat, msg), ..self }
    }

    /// The character that the player at `seat` is shown.
    pub open spec fn facing(self, seat: SeatId) -> Option<Character> {
        match seat_of(self.seats, seat) {
            Some(s) => s.face(),
            None => None,
        }
    }

    /// The game is decided.
    pub open spec fn over(self) -> bool {
        self.winner is Some || self.phase is Ended
    }

    /// A seat's publicly known life: night kills stay hidden until the night is over.
    pub open spec fn publicly_alive(self, seat: Seat) -> bool {
        seat.alive || (self.phase.night_falls() && self.deaths_tonight.contains(seat.id))
    }

    /// The public speech of a seat, optionally directed at another one.
    pub open spec fn said(self, seat: SeatId, text: Seq<char>, to: Option<SeatId>) -> Result<
        GameView,
        GameError,
    > {
        if !(self.phase is Day) {
            Err(GameError::WrongPhase)
        } else if seat_of(self.seats, seat) is None {
            Err(GameError::NoSuchSeat)
        } else {
            let name = seat_of(self.seats, seat)->0.display_name@;
            let chat = PublicEventView::Chat { seat, name, text, to };
            match to {
                None => Ok(self.publish(chat)),
                Some(target) => {
                    if target == seat {
                        Err(GameError::IllegalAction("cannot direct say at yourself"))
                    } else if seat_of(self.seats, target) is None
                        || seat.0 >= self.directed_say_sent.len()
                        || target.0 >= self.directed_say_received.len() {
                        Err(GameError::NoSuchSeat)
                    } else if self.directed_say_sent[seat.0 as int] >= DIRECTED_SAY_CAP {
                        Err(
                            GameError::IllegalAction(
                                "directed say cap reached for this player (max 6 per discussion day)",
                            ),
                        )
                    } else if self.directed_say_received[target.0 as int] >= DIRECTED_SAY_CAP {
                        Err(
                            GameError::IllegalAction(
                                "target has reached the directed-say receive cap (max 6 per discussion day)",
                            ),
                        )
                    } else {
                        let sent = self.directed_say_sent;
                        let received = self.directed_say_received;
                        let directed = GameView {
                            directed_say_sent: sent.update(
                                seat.0 as int,
                                (sent[seat.0 as int] + 1) as u32,
                            ),
                            directed_say_received: received.update(
                                target.0 as int,
                                (received[target.0 as int] + 1) as u32,
                            ),
                            pending_directed_wake: Some(target),
                            ..self
                        };
                        Ok(directed.publish(chat))
                    }
                },
            }
        }
    }

    /// No directed speech is counted and nobody waits to reply.
    pub open spec fn with_directed_say_reset(self) -> GameView {
        GameView {
            directed_say_sent: Seq::new(self.seats.len(), |i: int| 0u32),
            directed_say_received: Seq::new(self.seats.len(), |i: int| 0u32),
            pending_directed_wake: None,
            ..self
        }
    }
}

/// Result of opening a lobby: host token + player tokens in seat order.
pub struct CreateGameResult {
    pub game: Game,
    pub host_token: Token,
    pub player_tokens: Vec<Token>,
}

/// Alias kept for older sketch call sites; prefer [`CreateGameResult`].
pub type Lobby = CreateGameResult;

/// Per-seat assignment at start. Drunk **must** include a Townsfolk face.
#[derive(Debug, Clone, Copy, PartialEq, Eq, Structural)]
pub struct RoleAssignment {
    pub seat: SeatId,
    pub true_character: Character,
    /// Required when `true_character` is Drunk; `None` otherwise, or the assignment is refused.
    pub believed_character: Option<Character>,
}

impl RoleAssignment {
    pub fn normal(seat: SeatId, true_character: Character) -> (a: RoleAssignment)
        ensures
            a == (RoleAssignment { seat, true_character, believed_character: None }),
    {
        RoleAssignment { seat, true_character, believed_character: None }
    }

    pub fn drunk(seat: SeatId, townsfolk_face: Character) -> (r: Result<RoleAssignment, GameError>)
        ensures
            r == if crate::roles::type_of(townsfolk_face)
                == crate::roles::CharacterType::Townsfolk {
                Ok::<RoleAssignment, GameError>(
                    RoleAssignment {
                        seat,
                        true_character: Character::Drunk,
                        believed_character: Some(townsfolk_face),
                    },
                )
            } else {
                Err(GameError::IllegalAction("Drunk face must be a Townsfolk character"))
            },
    {
        if townsfolk_face.character_type() != crate::roles::CharacterType::Townsfolk {
            return Err(GameError::IllegalAction("Drunk face must be a Townsfolk character"));
        }
        Ok(
            RoleAssignment {
                seat,
                true_character: Character::Drunk,
                believed_character: Some(townsfolk_face),
            },
        )
    }
}

/// The token book of a fresh lobby: the host first, then one token per seat.
pub open spec fn lobby_book(host: Seq<char>, players: Seq<Seq<char>>) -> TokenBookView
    decreases players.len(),
{
    if players.len() == 0 {
        TokenBookView::empty().with_host(host)
    } else {
        lobby_book(host, players.drop_last()).with_player(
            SeatId((players.len() - 1) as u8),
            players.last(),
        )
    }
}

/// The secrets in a list of tokens.
pub open spec fn secrets(tokens: Seq<Token>) -> Seq<Seq<char>> {
    tokens.map_values(|t: Token| t@)
}

/// The credentials of a lobby all differ.
pub open spec fn credentials_differ(host: Seq<char>, players: Seq<Seq<char>>) -> bool {
    players.no_duplicates() && !players.contains(host)
}

proof fn lobby_books_know_their_tokens(host: Seq<char>, players: Seq<Seq<char>>, token: Seq<char>)
    ensures
        lobby_book(host, players).actor(token) is None ==> token != host && !players.contains(
            token,
        ),
    decreases players.len(),
{
    if players.len() == 0 {
        issued_token_resolves(TokenBookView::empty(), host, SeatId(0), token);
    } else {
        let front = players.drop_last();
        let seat = SeatId((players.len() - 1) as u8);
        lobby_books_know_their_tokens(host, front, token);
        issued_token_resolves(lobby_book(host, front), players.last(), seat, token);
        if players.contains(token) && token != players.last() {
            let i = players.index_of(token);
            assert(front[i] == token);
        }
    }
}

/// In a lobby the host's token resolves to the host, and the token handed out for a seat to the
/// player at that seat.
pub proof fn lobby_tokens_resolve(host: Seq<char>, players: Seq<Seq<char>>, i: int)
    requires
        credentials_differ(host, players),
    ensures
        lobby_book(host, players).actor(host) == Some(Actor::Host),
        0 <= i < players.len() ==> lobby_book(host, players).actor(players[i]) == Some(
            Actor::Player { seat: SeatId(i as u8) },
        ),
    decreases players.len(),
{
    if players.len() == 0 {
        issued_token_resolves(TokenBookView::empty(), host, SeatId(0), host);
    } else {
        let front = players.drop_last();
        let seat = SeatId((players.len() - 1) as u8);
        assert(players.contains(players.last()));
        assert(credentials_differ(host, front)) by {
            if front.contains(host) {
                assert(players[front.index_of(host)] == host);
            }
        }
        lobby_tokens_resolve(host, front, i);
        issued_token_resolves(lobby_book(host, front), players.last(), seat, host);
        if 0 <= i < front.len() {
            assert(players[i] != players[players.len() - 1]);
            issued_token_resolves(lobby_book(host, front), players.last(), seat, players[i]);
        }
    }
}

/// A fresh lobby: one living seat per name, in order, nothing dealt and nothing said.
pub open spec fn fresh_lobby(
    id: GameId,
    seed: u64,
    salt: u64,
    rng: SeededRng,
    names: Seq<String>,
    tokens: TokenBookView,
) -> GameView {
    GameView {
        id,
        seed,
        secret_salt: salt,
        rng,
        phase: Phase::Lobby,
        seats: Seq::new(names.len(), |i: int| Seat::fresh(SeatId(i as u8), names[i])),
        tokens,
        public_log: PublicLogView::empty(),
        private_inboxes: PrivateInboxesView::empty(),
        winner: None,
        red_herring: None,
        demon_bluffs: seq![],
        night_queue: seq![],
        night_cursor: 0,
        pending_night: None,
        pending_host: None,
        registration_mode: RegistrationMode::Random,
        st_choice_mode: StChoiceMode::HostFirst,
        host_lie_queue: seq![],
        deaths_tonight: seq![],
        executed_today: None,
        day_nominators: seq![],
        day_nominees: seq![],
        current_nomination: None,
        closed_nominations: seq![],
        pending_directed_wake: None,
        directed_say_sent: Seq::new(names.len(), |i: int| 0u32),
        directed_say_received: Seq::new(names.len(), |i: int| 0u32),
    }
}

/// What opening a lobby hands out: the fresh game and the tokens that its book holds.
pub open spec fn is_fresh_lobby(
    lobby: CreateGameResult,
    id: GameId,
    seed: u64,
    salt: u64,
    names: Seq<String>,
) -> bool {
    &&& lobby.player_tokens@.len() == names.len()
    &&& is_secret(lobby.host_token@)
    &&& forall|i: int| 0 <= i < names.len() ==> is_secret((#[trigger] lobby.player_tokens@[i])@)
    &&& credentials_differ(lobby.host_token@, secrets(lobby.player_tokens@))
    &&& lobby.game.rng.the_seed() == seed
    &&& lobby.game.rng.the_salt() == salt
    &&& lobby.game@ == fresh_lobby(
        id,
        seed,
        salt,
        lobby.game.rng,
        names,
        lobby_book(lobby.host_token@, secrets(lobby.player_tokens@)),
    )
}

fn zeros(n: usize) -> (v: Vec<u32>)
    ensures
        v@ == Seq::new(n as nat, |i: int| 0u32),
{
    let v: Vec<u32> = vec![0u32; n];
    assert(v@ =~= Seq::new(n as nat, |i: int| 0u32));
    v
}

fn open_lobby(id: GameId, player_names: Vec<String>, seed: u64, secret_salt: u64) -> (lobby:
    CreateGameResult)
    requires
        player_names@.len() <= 256,
    ensures
        is_fresh_lobby(lobby, id, seed, secret_salt, player_names@),
{
    let n = player_names.len();
    let mut tokens = TokenBook::default();
    let host_token = tokens.issue_host();
    let mut player_tokens: Vec<Token> = Vec::new();
    let mut seats: Vec<Seat> = Vec::new();
    let mut i: usize = 0;
    assert(secrets(player_tokens@) =~= seq![]);
    while i < n
        invariant
            i <= n,
            n == player_names@.len(),
            n <= 256,
            is_secret(host_token@),
            player_tokens@.len() == i,
            forall|k: int| 0 <= k < i ==> is_secret((#[trigger] player_tokens@[k])@),
            tokens@ == lobby_book(host_token@, secrets(player_tokens@)),
            credentials_differ(host_token@, secrets(player_tokens@)),
            seats@ =~= Seq::new(i as nat, |k: int| Seat::fresh(SeatId(k as u8), player_names@[k])),
        decreases n - i,
    {
        let seat = SeatId(i as u8);
        let ghost before = player_tokens@;
        let token = tokens.issue_player(seat);
        player_tokens.push(token);
        assert(secrets(player_tokens@).drop_last() =~= secrets(before));
        proof {
            lobby_books_know_their_tokens(host_token@, secrets(before), token@);
            assert(secrets(player_tokens@) =~= secrets(before).push(token@));
        }
        seats.push(Seat::new(seat, player_names[i].clone()));
        i += 1;
    }
    let game = Game {
        id,
        seed,
        secret_salt,
        rng: SeededRng::from_seed_and_salt(seed, secret_salt),
        phase: Phase::Lobby,
        seats,
        tokens,
        public_log: PublicLog::default(),
        private_inboxes: PrivateInboxes::default(),
        winner: None,
        red_herring: None,
        demon_bluffs: Vec::new(),
        night_queue: Vec::new(),
        night_cursor: 0,
        pending_night: None,
        pending_host: None,
        registration_mode: RegistrationMode::Random,
        st_choice_mode: StChoiceMode::HostFirst,
        host_lie_queue: VecDeque::new(),
        deaths_tonight: Vec::new(),
        executed_today: None,
        day_nominators: Vec::new(),
        day_nominees: Vec::new(),
        current_nomination: None,
        closed_nominations: Vec::new(),
        pending_directed_wake: None,
        directed_say_sent: zeros(n),
        directed_say_received: zeros(n),
    };
    assert(game@.host_lie_queue =~= seq![]);
    CreateGameResult { game, host_token, player_tokens }
}

impl Game {
    /// Open a lobby with seats and issued tokens. `id` is a placeholder until the game is stored.
    ///
    /// Generates a fresh random secret salt so substreams cannot be reconstructed from
    /// `seed` and public labels alone.
    pub fn create(player_names: Vec<String>, seed: u64) -> (r: Result<CreateGameResult, GameError>)
        ensures
            match r {
                Ok(lobby) => MIN_PLAYERS <= player_names@.len() <= MAX_PLAYERS && is_fresh_lobby(
                    lobby,
                    GameId(0),
                    seed,
                    lobby.game.secret_salt,
                    player_names@,
                ),
                Err(e) => !(MIN_PLAYERS <= player_names@.len() <= MAX_PLAYERS) && e
                    == GameError::BadRequest("player count must be between 5 and 15 inclusive"),
            },
    {
        Self::create_with_salt(player_names, seed, random_u64())
    }

    /// Like [`Self::create`] but with an explicit secret salt (deterministic tests / replay).
    pub fn create_with_salt(player_names: Vec<String>, seed: u64, secret_salt: u64) -> (r: Result<
        CreateGameResult,
        GameError,
    >)
        ensures
            match r {
                Ok(lobby) => MIN_PLAYERS <= player_names@.len() <= MAX_PLAYERS && is_fresh_lobby(
                    lobby,
                    GameId(0),
                    seed,
                    secret_salt,
                    player_names@,
                ),
                Err(e) => !(MIN_PLAYERS <= player_names@.len() <= MAX_PLAYERS) && e
                    == GameError::BadRequest("player count must be between 5 and 15 inclusive"),
            },
    {
        let n = player_names.len();
        if n < MIN_PLAYERS || n > MAX_PLAYERS {
            return Err(
                GameError::BadRequest("player count must be between 5 and 15 inclusive"),
            );
        }
        Ok(open_lobby(GameId(0), player_names, seed, secret_salt))
    }

    /// Open a lobby of any size under a given id, with seed and salt zero.
    pub fn new_lobby(id: GameId, player_names: Vec<String>) -> (lobby: Lobby)
        requires
            player_names@.len() <= 256,
        ensures
            is_fresh_lobby(lobby, id, 0, 0, player_names@),
    {
        open_lobby(id, player_names, 0, 0)
    }

    /// A seat's **publicly-known** alive status, for player-facing views only.
    ///
    /// A seat killed during the current night is not public until the dawn
    /// announcement (`DiedInNight`), so it must still read as alive to players in
    /// between. `deaths_tonight` holds exactly those unannounced night kills and is
    /// cleared at dawn, so day deaths (execution/Slayer — never added to it) stay
    /// visible the instant they resolve. The true [`Seat::alive`] remains the source
    /// of truth for ability resolution, win checks, host views, and scheduling —
    /// only player-facing roster DTOs are masked with this.
    ///
    /// The mask applies **only while a night is in progress**: if a night kill ends
    /// the game, or once the day begins, the true state is shown so the deciding death
    /// is not hidden on the final revealed board.
    pub fn seat_publicly_alive(&self, seat: &Seat) -> (b: bool)
        ensures
            b == self@.publicly_alive(*seat),
    {
        seat.alive || (self.phase.is_night() && holds_seat(&self.deaths_tonight, seat.id))
    }

    pub fn public_seats(&self) -> (v: Vec<PublicSeatView>)
        ensures
            v@ == self@.roster(),
    {
        let mut v: Vec<PublicSeatView> = Vec::new();
        let mut i: usize = 0;
        while i < self.seats.len()
            invariant
                i <= self.seats.len(),
                v@ =~= self@.roster().take(i as int),
            decreases self.seats.len() - i,
        {
            let s = &self.seats[i];
            v.push(
                PublicSeatView {
                    id: s.id,
                    name: s.display_name.clone(),
                    alive: self.seat_publicly_alive(s),
                    ghost_vote_available: s.ghost_vote_available,
                },
            );
            i += 1;
        }
        assert(v@ =~= self@.roster());
        v
    }

    /// Public speech. Optional `to` addresses another seat **publicly** (still on the
    /// shared log — never a private channel) and queues an immediate harness wake for
    /// that seat during Discussion.
    pub fn say(&mut self, seat: SeatId, text: String, to: Option<SeatId>) -> (r: Result<
        (),
        GameError,
    >)
        ensures
            settles(old(self)@.said(seat, text@, to), old(self)@, final(self)@, r),
    {
        // Public chat is a **day** activity only — at night players are asleep and
        // silent, and there is no talking in the lobby or after the game ends.
        // (Dead players may still speak during the day; no `alive` gate here.)
        if !matches!(self.phase, Phase::Day { .. }) {
            return Err(GameError::WrongPhase);
        }
        let name = match find_seat(&self.seats, seat) {
            Some(i) => self.seats[i].display_name.clone(),
            None => return Err(GameError::NoSuchSeat),
        };
        if let Some(target) = to {
            if target == seat {
                return Err(GameError::IllegalAction("cannot direct say at yourself"));
            }
            if find_seat(&self.seats, target).is_none() {
                return Err(GameError::NoSuchSeat);
            }
            let si = seat.0 as usize;
            let ti = target.0 as usize;
            if si >= self.directed_say_sent.len() || ti >= self.directed_say_received.len() {
                return Err(GameError::NoSuchSeat);
            }
            if self.directed_say_sent[si] >= DIRECTED_SAY_CAP {
                return Err(
                    GameError::IllegalAction(
                        "directed say cap reached for this player (max 6 per discussion day)",
                    ),
                );
            }
            if self.directed_say_received[ti] >= DIRECTED_SAY_CAP {
                return Err(
                    GameError::IllegalAction(
                        "target has reached the directed-say receive cap (max 6 per discussion day)",
                    ),
                );
            }
            let sent: u32 = self.directed_say_sent[si] + 1;
            let received: u32 = self.directed_say_received[ti] + 1;
            self.directed_say_sent.set(si, sent);
            self.directed_say_received.set(ti, received);
            // Queue wake; harness scheduler honours this during Discussion only.
            self.pending_directed_wake = Some(target);
        }
        self.public_log.push(PublicEvent::Chat { seat, name, text, to });
        Ok(())
    }

    /// Clear directed-say counters and pending wake (call at dawn / new discussion day).
    pub fn reset_directed_say(&mut self)
        ensures
            final(self)@ == old(self)@.with_directed_say_reset(),
    {
        let n = self.seats.len();
        self.directed_say_sent = zeros(n);
        self.directed_say_received = zeros(n);
        self.pending_directed_wake = None;
    }

    /// The seat that a directed message waited for has replied.
    pub fn clear_directed_wake(&mut self)
        ensures
            final(self)@ == (GameView { pending_directed_wake: None, ..old(self)@ }),
    {
        self.pending_directed_wake = None;
    }

    pub fn st_announce(&mut self, text: String)
        ensures
            final(self)@ == old(self)@.announce(text@),
    {
        self.public_log.push(PublicEvent::StorytellerAnnounce { text });
    }

    /// Deliver Storyteller private info to one seat only.
    pub fn st_whisper(&mut self, seat: SeatId, msg: PrivateMessage)
        ensures
            final(self)@ == old(self)@.whisper(seat, msg@),
    {
        self.private_inboxes.push(seat, msg);
    }

    /// Player-facing character for private role tools. Never returns Drunk when a face is set.
    pub fn player_facing_character(&self, seat: SeatId) -> (c: Option<Character>)
        ensures
            c == self@.facing(seat),
    {
        match find_seat(&self.seats, seat) {
            Some(i) => self.seats[i].visible_character(),
            None => None,
        }
    }

    /// Pop the next host-authored lie, if any (used by disabled info paths).
    pub fn take_host_lie(&mut self) -> (r: Option<String>)
        ensures
            match r {
                Some(lie) => old(self)@.host_lie_queue.len() > 0 && lie@
                    == old(self)@.host_lie_queue[0] && final(self)@ == (GameView {
                    host_lie_queue: old(self)@.host_lie_queue.drop_first(),
                    ..old(self)@
                }),
                None => old(self)@.host_lie_queue.len() == 0 && final(self)@ == old(self)@,
            },
    {
        let r = self.host_lie_queue.pop_front();
        assert(r is None ==> self@.host_lie_queue =~= old(self)@.host_lie_queue);
        assert(r is Some ==> self@.host_lie_queue =~= old(self)@.host_lie_queue.drop_first());
        r
    }

    /// Reject gameplay mutations while a Storyteller decision is outstanding.
    ///
    /// Only `host_decide` / `skip_night_action` may proceed while `pending_host` is set.
    pub fn require_no_pending_host(&self) -> (r: Result<(), GameError>)
        ensures
            r == self@.no_pending_host(),
    {
        if self.pending_host.is_some() {
            return Err(
                GameError::IllegalAction(
                    "storyteller decision pending; resolve with host_decide or skip_night_action",
                ),
            );
        }
        Ok(())
    }
}

impl GameView {
    /// What every player may see of the seats.
    pub open spec fn roster(self) -> Seq<PublicSeatView> {
        Seq::new(
            self.seats.len(),
            |i: int|
                PublicSeatView {
                    id: self.seats[i].id,
                    name: self.seats[i].display_name,
                    alive: self.publicly_alive(self.seats[i]),
                    ghost_vote_available: self.seats[i].ghost_vote_available,
                },
        )
    }

    /// Whether a Storyteller decision blocks play.
    pub open spec fn no_pending_host(self) -> Result<(), GameError> {
        if self.pending_host is Some {
            Err(
                GameError::IllegalAction(
                    "storyteller decision pending; resolve with host_decide or skip_night_action",
                ),
            )
        } else {
            Ok(())
        }
    }
}

} // verus!
