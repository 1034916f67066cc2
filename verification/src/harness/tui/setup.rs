//! The setup screen: how many play, on which models, and in which previewed roles.

use crate::game::ids::{GameId, SeatId};
use crate::game::seat::Seat;
use crate::game::setup::StartOpts;
use crate::game::start::{all_dealt, in_place};
use crate::game::st_policy::{RegistrationMode, StChoiceMode};
use crate::game::state::{
    is_fresh_lobby, lobby_tokens_resolve, secrets, CreateGameResult, Game, RoleAssignment,
    MAX_PLAYERS, MIN_PLAYERS,
};
use crate::harness::agents::{Backend, HarnessConfig};
use crate::harness::balance::{key_of, models_view, node_key, ModelStats, StatsView};
use crate::harness::matching::{balanced, balanced_assignment};
use crate::rng::Substream;
use crate::roles::Character;
use crate::text::{dec, numbered, texts};
use vstd::prelude::*;
use vstd::string::*;

verus! {

/// One setup-screen session pick: which backend runs the seat and on which model. A single
/// struct (not parallel vectors) so backend and model can never desync.
#[derive(Debug)]
pub struct SeatChoice {
    pub backend: Backend,
    pub model: String,
}

/// What a pick says.
pub struct ChoiceView {
    pub backend: Backend,
    pub model: Seq<char>,
}

impl View for SeatChoice {
    type V = ChoiceView;

    open spec fn view(&self) -> ChoiceView {
        ChoiceView { backend: self.backend, model: self.model@ }
    }
}

impl Clone for SeatChoice {
    fn clone(&self) -> (c: SeatChoice)
        ensures
            c@ == self@,
    {
        SeatChoice { backend: self.backend, model: self.model.clone() }
    }
}

/// What picks say.
pub open spec fn choices_view(v: Seq<SeatChoice>) -> Seq<ChoiceView> {
    v.map_values(|c: SeatChoice| c@)
}

/// The state of the setup screen.
#[derive(Debug)]
pub struct Setup {
    pub player_count: usize,
    /// Per-session backend+model picks: index 0 = Host, 1..=N = players P0..P{N-1}.
    pub seat_choices: Vec<SeatChoice>,
    /// Previewed role for each player seat (index i = P{i}), shown on the setup
    /// screen so models can be picked per role. Passed on as fixed assignments so the launched
    /// game matches exactly what was shown. Empty only if the preview draw failed.
    pub setup_roles: Vec<RoleAssignment>,
    /// Focused setup row: 0 = the player-count row; 1.. = Host, P0, P1, …
    pub setup_row: usize,
}

/// What the setup screen says.
pub struct SetupView {
    pub player_count: usize,
    pub seat_choices: Seq<ChoiceView>,
    pub setup_roles: Seq<RoleAssignment>,
    pub setup_row: usize,
}

impl View for Setup {
    type V = SetupView;

    open spec fn view(&self) -> SetupView {
        SetupView {
            player_count: self.player_count,
            seat_choices: choices_view(self.seat_choices@),
            setup_roles: self.setup_roles@,
            setup_row: self.setup_row,
        }
    }
}

/// The pick that a new row starts with.
pub open spec fn default_choice(cfg: HarnessConfig) -> ChoiceView {
    ChoiceView { backend: Backend::Grok, model: cfg.model@ }
}

/// The picks cut or filled up to a length.
pub open spec fn resized(choices: Seq<ChoiceView>, n: nat, fill: ChoiceView) -> Seq<ChoiceView> {
    if choices.len() >= n {
        choices.take(n as int)
    } else {
        choices + Seq::new((n - choices.len()) as nat, |i: int| fill)
    }
}

/// `P0`, `P1`, … for a number of players.
pub open spec fn seat_names(n: nat) -> Seq<Seq<char>> {
    Seq::new(n, |i: int| "P"@ + dec(i as nat))
}

/// `P0`, `P1`, … for a number of players.
pub fn list_seat_names(n: usize) -> (v: Vec<String>)
    ensures
        texts(v@) == seat_names(n as nat),
        v@.len() == n,
{
    let mut v: Vec<String> = Vec::new();
    let mut i: usize = 0;
    while i < n
        invariant
            i <= n,
            v@.len() == i,
            forall|k: int| 0 <= k < i ==> (#[trigger] v@[k])@ == "P"@ + dec(k as nat),
        decreases n - i,
    {
        v.push(numbered("P", i as u64));
        i += 1;
    }
    assert(texts(v@) =~= seat_names(n as nat));
    v
}

impl SetupView {
    /// The picks fit the player count, which is legal, and a row is focused that exists.
    pub open spec fn wf(self) -> bool {
        &&& MIN_PLAYERS <= self.player_count <= MAX_PLAYERS
        &&& self.seat_choices.len() == self.player_count + 1
        &&& self.setup_row <= self.player_count + 1
    }

    /// The ranking key of each player seat's model; empty where there is no pick.
    pub open spec fn seat_keys(self, seats: Seq<SeatId>) -> Seq<Seq<char>> {
        seats.map_values(
            |s: SeatId|
                if s.0 + 1 < self.seat_choices.len() {
                    key_of(
                        self.seat_choices[s.0 + 1].backend.word(),
                        self.seat_choices[s.0 + 1].model,
                    )
                } else {
                    seq![]
                },
        )
    }

    /// The roles that a dealt game gives after balancing them against the picked models.
    pub open spec fn preview(
        self,
        dealt: Seq<Seat>,
        stats: Seq<(Seq<char>, StatsView)>,
        rng: Substream,
    ) -> (Seq<RoleAssignment>, Substream) {
        let seats = dealt.map_values(|s: Seat| s.id);
        balanced(seats, self.seat_keys(seats), bag_of(dealt), stats, rng)
    }
}

/// The characters at the seats as a bag (any Drunk face included).
pub open spec fn bag_of(seats: Seq<Seat>) -> Seq<(Character, Option<Character>)> {
    seats.map_values(|s: Seat| (s.true_character->0, s.believed_character))
}

/// The characters at the seats as a bag, if every seat has one.
pub fn collect_bag(seats: &Vec<Seat>) -> (r: Option<Vec<(Character, Option<Character>)>>)
    ensures
        match r {
            Some(bag) => all_dealt(seats@) && bag@ == bag_of(seats@),
            None => !all_dealt(seats@),
        },
{
    let mut bag: Vec<(Character, Option<Character>)> = Vec::new();
    let mut i: usize = 0;
    while i < seats.len()
        invariant
            i <= seats@.len(),
            bag@.len() == i,
            forall|k: int|
                0 <= k < i ==> (#[trigger] seats@[k]).true_character is Some && bag@[k] == (
                    seats@[k].true_character->0,
                    seats@[k].believed_character,
                ),
        decreases seats@.len() - i,
    {
        match seats[i].true_character {
            Some(c) => bag.push((c, seats[i].believed_character)),
            None => return None,
        }
        i += 1;
    }
    assert(bag@ =~= bag_of(seats@));
    Some(bag)
}

impl Setup {
    /// Five players, every session on the default model, no roles yet.
    pub fn new(cfg: &HarnessConfig) -> (s: Setup)
        ensures
            s@ == (SetupView {
                player_count: 5,
                seat_choices: resized(seq![], 6, default_choice(*cfg)),
                setup_roles: seq![],
                setup_row: 0,
            }),
            s@.wf(),
    {
        let mut s = Setup {
            player_count: 5,
            seat_choices: Vec::new(),
            setup_roles: Vec::new(),
            setup_row: 0,
        };
        assert(choices_view(s.seat_choices@) =~= seq![]);
        s.resize_choices(cfg);
        s
    }

    /// Fit the picks to the player count; new rows start on the default model.
    #[verifier::loop_isolation(false)]
    pub(crate) fn resize_choices(&mut self, cfg: &HarnessConfig)
        requires
            old(self).player_count < usize::MAX,
        ensures
            final(self)@ == (SetupView {
                seat_choices: resized(
                    old(self)@.seat_choices,
                    (old(self).player_count + 1) as nat,
                    default_choice(*cfg),
                ),
                ..old(self)@
            }),
    {
        let n: usize = self.player_count + 1;
        let ghost start = self.seat_choices@;
        if self.seat_choices.len() >= n {
            self.seat_choices.truncate(n);
            assert(choices_view(self.seat_choices@) =~= choices_view(start).take(n as int));
            return;
        }
        while self.seat_choices.len() < n
            invariant
                start.len() <= self.seat_choices@.len() <= n,
                self.player_count == old(self).player_count,
                self.setup_roles == old(self).setup_roles,
                self.setup_row == old(self).setup_row,
                forall|k: int| 0 <= k < start.len() ==> self.seat_choices@[k] == start[k],
                forall|k: int|
                    start.len() <= k < self.seat_choices@.len() ==> (
                    #[trigger] self.seat_choices@[k])@ == default_choice(*cfg),
            decreases n - self.seat_choices@.len(),
        {
            self.seat_choices.push(
                SeatChoice { backend: Backend::Grok, model: cfg.model.clone() },
            );
        }
        assert(choices_view(self.seat_choices@) =~= resized(
            choices_view(start),
            n as nat,
            default_choice(*cfg),
        ));
    }

    /// The ranking key of each seat's model.
    fn list_keys(&self, seats: &Vec<SeatId>) -> (v: Vec<String>)
        ensures
            texts(v@) == self@.seat_keys(seats@),
            v@.len() == seats@.len(),
    {
        let mut v: Vec<String> = Vec::new();
        let mut i: usize = 0;
        while i < seats.len()
            invariant
                i <= seats@.len(),
                v@.len() == i,
                forall|k: int| 0 <= k < i ==> (#[trigger] v@[k])@ == self@.seat_keys(seats@)[k],
            decreases seats@.len() - i,
        {
            let at: usize = seats[i].0 as usize + 1;
            if at < self.seat_choices.len() {
                let c = &self.seat_choices[at];
                assert(self@.seat_choices[at as int] == c@);
                v.push(node_key(c.backend.as_str(), c.model.as_str()));
            } else {
                let empty = String::new();
                assert(empty@ =~= seq![]);
                v.push(empty);
            }
            i += 1;
        }
        assert(texts(v@) =~= self@.seat_keys(seats@));
        v
    }

    /// Take over the roles that a dealt game gives, balanced against the picked models.
    pub fn preview_roles(
        &mut self,
        seats: &Vec<Seat>,
        bag: &Vec<(Character, Option<Character>)>,
        stats: &Vec<(String, ModelStats)>,
        rng: &mut Substream,
    )
        requires
            all_dealt(seats@),
            bag@ == bag_of(seats@),
        ensures
            final(self)@ == (SetupView { setup_roles: final(self)@.setup_roles, ..old(self)@ }),
            (final(self)@.setup_roles, *final(rng)) == old(self)@.preview(
                seats@,
                models_view(stats@),
                *old(rng),
            ),
    {
        let mut ids: Vec<SeatId> = Vec::new();
        let mut i: usize = 0;
        while i < seats.len()
            invariant
                i <= seats@.len(),
                ids@.len() == i,
                forall|k: int| 0 <= k < i ==> (#[trigger] ids@[k]) == seats@[k].id,
            decreases seats@.len() - i,
        {
            ids.push(seats[i].id);
            i += 1;
        }
        assert(ids@ =~= seats@.map_values(|s: Seat| s.id));
        let keys = self.list_keys(&ids);
        self.setup_roles = balanced_assignment(&ids, &keys, bag, stats, rng);
    }

    /// Draw a fresh, valid role assignment for the current player count. Uses a throwaway game
    /// so the same bag logic that the real game will use produces the composition; the bag is
    /// then reassigned across seats so each model keeps a balanced record.
    pub fn reroll_roles(
        &mut self,
        stats: &Vec<(String, ModelStats)>,
        seed: u64,
        rng: &mut Substream,
    )
        requires
            old(self)@.wf(),
        ensures
            final(self)@ == (SetupView { setup_roles: final(self)@.setup_roles, ..old(self)@ }),
            exists|lobby: CreateGameResult, names: Seq<String>|
                {
                    let g = lobby.game@.started(lobby.host_token@, default_opts()).0;
                    &&& #[trigger] is_fresh_lobby(
                        lobby,
                        GameId(0),
                        seed,
                        lobby.game.secret_salt,
                        names,
                    )
                    &&& texts(names) == seat_names(old(self).player_count as nat)
                    &&& all_dealt(g.seats)
                    &&& (final(self)@.setup_roles, *final(rng)) == old(self)@.preview(
                        g.seats,
                        models_view(stats@),
                        *old(rng),
                    )
                },
    {
        let names = list_seat_names(self.player_count);
        let ghost listed = names@;
        if let Ok(mut created) = Game::create(names, seed) {
            let ghost lobby = created;
            proof {
                assert(is_fresh_lobby(lobby, GameId(0), seed, lobby.game.secret_salt, listed));
                assert(in_place(lobby.game@.seats));
                assert(lobby.game@.deal_for(default_opts()) is Ok);
                lobby_tokens_resolve(lobby.host_token@, secrets(lobby.player_tokens@), 0);
            }
            let started = created.game.start_game(&created.host_token, StartOpts::default());
            assert(started is Ok);
            if let Some(bag) = collect_bag(&created.game.seats) {
                self.preview_roles(&created.game.seats, &bag, stats, rng);
            }
        }
    }
}

/// The default start options.
pub open spec fn default_opts() -> StartOpts {
    StartOpts {
        assignments: None,
        drunk_faces: None,
        red_herring: None,
        demon_bluffs: None,
        registration_mode: RegistrationMode::Random,
        st_choice_mode: StChoiceMode::HostFirst,
    }
}

} // verus!
