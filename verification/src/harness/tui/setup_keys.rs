//! What the keys of the setup screen do.

use crate::harness::agents::{cycle_in_list, stepped, Backend, HarnessConfig};
use crate::harness::balance::{
    key_of, models_view, node_key, stats_in, stats_of, History, ModelStats, StatsView,
};
use crate::harness::selection::{
    is_covariance, matrix_view, select_balanced_models, selected,
};
use crate::harness::tui::paint::{name_of_slot, slot_name};
use crate::harness::tui::setup::{
    choices_view, default_choice, resized, ChoiceView, SeatChoice, Setup, SetupView,
};
use crate::game::state::{RoleAssignment, MAX_PLAYERS, MIN_PLAYERS};
use crate::rng::Substream;
use crate::roles::Character;
use crate::text::{chars_of, dec, join, joined, numbered, push_dec, str_eq, texts};
use vstd::prelude::*;
use vstd::string::*;

verus! {

/// A player count kept legal.
pub open spec fn legal_count(n: int) -> int {
    if n < MIN_PLAYERS {
        MIN_PLAYERS as int
    } else if n > MAX_PLAYERS {
        MAX_PLAYERS as int
    } else {
        n
    }
}

/// The models that a backend offers.
pub open spec fn offered(cfg: HarnessConfig, backend: Backend) -> Seq<Seq<char>> {
    texts(
        match backend {
            Backend::Grok => cfg.available_models@,
            Backend::Claude => cfg.claude_models@,
        },
    )
}

/// `[backend] model`.
pub open spec fn pick_words(c: ChoiceView) -> Seq<char> {
    "["@ + c.backend.word() + "] "@ + c.model
}

fn words_of_pick(c: &SeatChoice) -> (s: String)
    ensures
        s@ == pick_words(c@),
{
    let mut s = "[".to_owned();
    s.append(c.backend.as_str());
    s.append("] ");
    s.append(c.model.as_str());
    s
}

impl SetupView {
    /// The screen with another pick in the focused row.
    pub open spec fn with_pick(self, c: ChoiceView) -> SetupView {
        SetupView {
            seat_choices: self.seat_choices.update(self.setup_row - 1, c),
            ..self
        }
    }

    /// The pick in the focused row.
    pub open spec fn focused(self) -> ChoiceView {
        self.seat_choices[self.setup_row - 1]
    }
}

impl Setup {
    /// ↑: the row above.
    pub fn row_up(&mut self)
        requires
            old(self)@.wf(),
        ensures
            final(self)@ == (SetupView {
                setup_row: if old(self)@.setup_row > 0 {
                    (old(self)@.setup_row - 1) as usize
                } else {
                    0
                },
                ..old(self)@
            }),
            final(self)@.wf(),
    {
        self.setup_row = self.setup_row.saturating_sub(1);
    }

    /// ↓: the row below. Rows: 0 (count) + player_count+1 model rows.
    pub fn row_down(&mut self)
        requires
            old(self)@.wf(),
        ensures
            final(self)@ == (SetupView {
                setup_row: if old(self)@.setup_row <= old(self)@.player_count {
                    (old(self)@.setup_row + 1) as usize
                } else {
                    old(self)@.setup_row
                },
                ..old(self)@
            }),
            final(self)@.wf(),
    {
        if self.setup_row <= self.player_count {
            self.setup_row = self.setup_row + 1;
        }
    }

    /// ←/→ on row 0: change the player count; the picks grow or shrink with it, new rows on the
    /// default model. Roles are count-specific; the caller redraws them so the picker stays
    /// valid. Returns the status.
    pub fn change_count(&mut self, delta: i32, cfg: &HarnessConfig) -> (status: String)
        requires
            old(self)@.wf(),
            old(self)@.setup_row == 0,
        ensures
            ({
                let n = legal_count(old(self)@.player_count + delta);
                &&& final(self)@ == (SetupView {
                    player_count: n as usize,
                    seat_choices: resized(
                        old(self)@.seat_choices,
                        (n + 1) as nat,
                        default_choice(*cfg),
                    ),
                    ..old(self)@
                })
                &&& status@ == "players: "@ + dec(n as nat) + "  ("@ + dec((n + 1) as nat)
                    + " sessions incl. host)"@
            }),
            final(self)@.wf(),
    {
        let wanted: i64 = self.player_count as i64 + delta as i64;
        self.player_count = if wanted < 5 {
            5
        } else if wanted > 15 {
            15
        } else {
            wanted as usize
        };
        self.resize_choices(cfg);
        let mut status = numbered("players: ", self.player_count as u64);
        status.append("  (");
        push_dec(&mut status, self.player_count as u64 + 1);
        status.append(" sessions incl. host)");
        status
    }

    fn set_focused(&mut self, c: SeatChoice)
        requires
            old(self)@.wf(),
            old(self)@.setup_row >= 1,
        ensures
            final(self)@ == old(self)@.with_pick(c@),
            final(self)@.wf(),
    {
        let at: usize = self.setup_row - 1;
        self.seat_choices.set(at, c);
        assert(choices_view(self.seat_choices@) =~= choices_view(old(self).seat_choices@).update(
            at as int,
            c@,
        ));
    }

    /// ←/→ on a session row: cycle within the seat's *own* backend's model list.
    pub fn change_model(&mut self, delta: i32, cfg: &HarnessConfig) -> (status: String)
        requires
            old(self)@.wf(),
            old(self)@.setup_row >= 1,
        ensures
            ({
                let was = old(self)@.focused();
                let now = ChoiceView {
                    model: stepped(was.model, offered(*cfg, was.backend), delta as int),
                    ..was
                };
                &&& final(self)@ == old(self)@.with_pick(now)
                &&& status@ == slot_name(old(self)@.setup_row - 1) + ": "@ + pick_words(now)
                    + "  (b = backend · a = apply to all)"@
            }),
            final(self)@.wf(),
    {
        let at: usize = self.setup_row - 1;
        assert(self@.focused() == self.seat_choices@[at as int]@);
        let backend = self.seat_choices[at].backend;
        let model = cycle_in_list(
            self.seat_choices[at].model.as_str(),
            cfg.models_for(backend).as_slice(),
            delta,
        );
        let pick = SeatChoice { backend, model };
        let words = words_of_pick(&pick);
        self.set_focused(pick);
        let mut status = name_of_slot(at);
        status.append(": ");
        status.append(words.as_str());
        status.append("  (b = backend · a = apply to all)");
        status
    }

    /// `b`: cycle the focused seat's backend (grok ↔ alt); snap model to that backend's
    /// default so the pick is always valid. Nothing happens on the player-count row.
    pub fn cycle_backend(&mut self, cfg: &HarnessConfig) -> (status: Option<String>)
        requires
            old(self)@.wf(),
        ensures
            old(self)@.setup_row == 0 ==> status is None && final(self)@ == old(self)@,
            old(self)@.setup_row >= 1 ==> ({
                let nb = match old(self)@.focused().backend {
                    Backend::Grok => Backend::Claude,
                    Backend::Claude => Backend::Grok,
                };
                let now = ChoiceView { backend: nb, model: cfg.starting_model(nb) };
                &&& final(self)@ == old(self)@.with_pick(now)
                &&& status matches Some(s) && s@ == slot_name(old(self)@.setup_row - 1)
                    + " backend: "@ + pick_words(now)
            }),
            final(self)@.wf(),
    {
        if self.setup_row == 0 {
            return None;
        }
        let at: usize = self.setup_row - 1;
        assert(self@.focused() == self.seat_choices@[at as int]@);
        let nb = self.seat_choices[at].backend.cycle(1);
        let pick = SeatChoice { backend: nb, model: cfg.default_model(nb) };
        let words = words_of_pick(&pick);
        self.set_focused(pick);
        let mut status = name_of_slot(at);
        status.append(" backend: ");
        status.append(words.as_str());
        Some(status)
    }

    /// `a`: apply the focused row's backend + model to every session. Nothing happens on the
    /// player-count row.
    #[verifier::loop_isolation(false)]
    pub fn apply_to_all(&mut self) -> (status: Option<String>)
        requires
            old(self)@.wf(),
        ensures
            old(self)@.setup_row == 0 ==> status is None && final(self)@ == old(self)@,
            old(self)@.setup_row >= 1 ==> ({
                let src = old(self)@.focused();
                &&& final(self)@ == (SetupView {
                    seat_choices: Seq::new(old(self)@.seat_choices.len(), |i: int| src),
                    ..old(self)@
                })
                &&& status matches Some(s) && s@ == "ALL sessions: "@ + pick_words(src)
            }),
            final(self)@.wf(),
    {
        if self.setup_row == 0 {
            return None;
        }
        let at: usize = self.setup_row - 1;
        let src = self.seat_choices[at].clone();
        assert(self@.focused() == src@);
        let n = self.seat_choices.len();
        let mut all: Vec<SeatChoice> = Vec::new();
        while all.len() < n
            invariant
                all@.len() <= n,
                forall|k: int| 0 <= k < all@.len() ==> (#[trigger] all@[k])@ == src@,
            decreases n - all@.len(),
        {
            all.push(src.clone());
        }
        self.seat_choices = all;
        assert(choices_view(self.seat_choices@) =~= Seq::new(n as nat, |i: int| src@));
        let mut status = "ALL sessions: ".to_owned();
        status.append(words_of_pick(&src).as_str());
        Some(status)
    }
}

// ---------------------------------------------------------------------------
// Choosing models
// ---------------------------------------------------------------------------

/// The models of a backend that have a record, in order.
pub open spec fn recorded_of(
    backend: Backend,
    models: Seq<Seq<char>>,
    stats: Seq<(Seq<char>, StatsView)>,
) -> Seq<ChoiceView>
    decreases models.len(),
{
    if models.len() == 0 {
        seq![]
    } else {
        let front = recorded_of(backend, models.drop_last(), stats);
        if stats_in(stats, key_of(backend.word(), models.last())) is Some {
            front.push(ChoiceView { backend, model: models.last() })
        } else {
            front
        }
    }
}

/// Everything offered in the pickers that already has a completed game.
pub open spec fn eligible(
    cfg: HarnessConfig,
    stats: Seq<(Seq<char>, StatsView)>,
) -> Seq<ChoiceView> {
    recorded_of(Backend::Grok, offered(cfg, Backend::Grok), stats) + recorded_of(
        Backend::Claude,
        offered(cfg, Backend::Claude),
        stats,
    )
}

#[verifier::loop_isolation(false)]
fn push_recorded(
    out: &mut Vec<SeatChoice>,
    backend: Backend,
    models: &Vec<String>,
    stats: &Vec<(String, ModelStats)>,
)
    ensures
        choices_view(final(out)@) == choices_view(old(out)@) + recorded_of(
            backend,
            texts(models@),
            models_view(stats@),
        ),
{
    let ghost all = texts(models@);
    let ghost start = choices_view(out@);
    let mut i: usize = 0;
    assert(choices_view(out@) =~= start + recorded_of(backend, all.take(0), models_view(stats@)));
    while i < models.len()
        invariant
            i <= models@.len(),
            choices_view(out@) == start + recorded_of(
                backend,
                all.take(i as int),
                models_view(stats@),
            ),
        decreases models@.len() - i,
    {
        let ghost before = out@;
        assert(all.take(i + 1).drop_last() =~= all.take(i as int));
        assert(all[i as int] == models@[i as int]@);
        let key = node_key(backend.as_str(), models[i].as_str());
        if stats_of(stats, key.as_str()).is_some() {
            let pick = SeatChoice { backend, model: models[i].clone() };
            out.push(pick);
            assert(choices_view(out@) =~= choices_view(before).push(pick@));
            assert(choices_view(out@) =~= start + recorded_of(
                backend,
                all.take(i + 1),
                models_view(stats@),
            ));
        }
        i += 1;
    }
    assert(all.take(i as int) =~= all);
}

/// The models the balancer may CHOOSE from: everything offered in the pickers that already has
/// **≥1 completed game**. A model with no valid games has no record to balance — pick it by hand
/// to give it a first game, after which it becomes eligible.
pub fn eligible_models(
    cfg: &HarnessConfig,
    stats: &Vec<(String, ModelStats)>,
) -> (out: Vec<SeatChoice>)
    ensures
        choices_view(out@) == eligible(*cfg, models_view(stats@)),
{
    let mut out: Vec<SeatChoice> = Vec::new();
    assert(choices_view(out@) =~= seq![]);
    push_recorded(&mut out, Backend::Grok, &cfg.available_models, stats);
    push_recorded(&mut out, Backend::Claude, &cfg.claude_models, stats);
    assert(choices_view(out@) =~= eligible(*cfg, models_view(stats@)));
    out
}

/// The ranking keys of picks.
pub open spec fn pool_keys(pool: Seq<ChoiceView>) -> Seq<Seq<char>> {
    pool.map_values(|c: ChoiceView| key_of(c.backend.word(), c.model))
}

/// The ranking keys of picks.
pub fn list_pool_keys(pool: &Vec<SeatChoice>) -> (v: Vec<String>)
    ensures
        texts(v@) == pool_keys(choices_view(pool@)),
        v@.len() == pool@.len(),
{
    let mut v: Vec<String> = Vec::new();
    let mut i: usize = 0;
    while i < pool.len()
        invariant
            i <= pool@.len(),
            v@.len() == i,
            forall|k: int|
                0 <= k < i ==> (#[trigger] v@[k])@ == key_of(
                    pool@[k].backend.word(),
                    pool@[k].model@,
                ),
        decreases pool@.len() - i,
    {
        v.push(node_key(pool[i].backend.as_str(), pool[i].model.as_str()));
        i += 1;
    }
    assert(texts(v@) =~= pool_keys(choices_view(pool@)));
    v
}

/// Lexicographic order on texts.
pub open spec fn before(a: Seq<char>, b: Seq<char>) -> bool
    decreases a.len(),
{
    if b.len() == 0 {
        false
    } else if a.len() == 0 {
        true
    } else if a[0] != b[0] {
        a[0] < b[0]
    } else {
        before(a.drop_first(), b.drop_first())
    }
}

#[verifier::loop_isolation(false)]
fn is_before(a: &str, b: &str) -> (r: bool)
    ensures
        r == before(a@, b@),
{
    let ac = chars_of(a);
    let bc = chars_of(b);
    let mut i: usize = 0;
    assert(a@.skip(0) =~= a@);
    assert(b@.skip(0) =~= b@);
    while i < ac.len() && i < bc.len()
        invariant
            i <= ac@.len(),
            i <= bc@.len(),
            before(a@, b@) == before(a@.skip(i as int), b@.skip(i as int)),
        decreases ac@.len() - i,
    {
        assert(a@.skip(i as int).drop_first() =~= a@.skip(i + 1));
        assert(b@.skip(i as int).drop_first() =~= b@.skip(i + 1));
        if ac[i] != bc[i] {
            return ac[i] < bc[i];
        }
        i += 1;
    }
    i < bc.len()
}

/// The sorted list with one more text, unless it holds it.
pub open spec fn sorted_in(list: Seq<Seq<char>>, x: Seq<char>) -> Seq<Seq<char>>
    decreases list.len(),
{
    if list.len() == 0 {
        seq![x]
    } else if x == list.last() {
        list
    } else if before(list.last(), x) {
        list.push(x)
    } else {
        sorted_in(list.drop_last(), x).push(list.last())
    }
}

/// The texts in order, each once.
pub open spec fn sorted_set(items: Seq<Seq<char>>) -> Seq<Seq<char>>
    decreases items.len(),
{
    if items.len() == 0 { seq![] } else { sorted_in(sorted_set(items.drop_last()), items.last()) }
}

/// Put a text into a sorted list, unless it holds it.
#[verifier::loop_isolation(false)]
fn sort_in(list: &mut Vec<String>, x: &str)
    ensures
        texts(final(list)@) == sorted_in(texts(old(list)@), x@),
{
    let ghost all = texts(list@);
    let mut i: usize = list.len();
    assert(all.take(i as int) =~= all);
    assert(sorted_in(all, x@) =~= sorted_in(all.take(i as int), x@) + all.skip(i as int));
    while i > 0
        invariant
            i <= list@.len(),
            list@ == old(list)@,
            sorted_in(all, x@) == sorted_in(all.take(i as int), x@) + all.skip(i as int),
        decreases i,
    {
        let ghost part = all.take(i as int);
        assert(part.last() == all[i - 1]);
        assert(all[i - 1] == list@[i - 1]@);
        assert(part.drop_last() =~= all.take(i - 1));
        if str_eq(list[i - 1].as_str(), x) {
            assert(part + all.skip(i as int) =~= all);
            return;
        }
        if is_before(list[i - 1].as_str(), x) {
            let ghost was = list@;
            list.insert(i, x.to_owned());
            assert(texts(list@) =~= part.push(x@) + all.skip(i as int));
            return;
        }
        assert(sorted_in(part, x@) + all.skip(i as int) =~= sorted_in(all.take(i - 1), x@)
            + all.skip(i - 1));
        i -= 1;
    }
    list.insert(0, x.to_owned());
    assert(all.take(0) =~= seq![]);
    assert(texts(list@) =~= seq![x@] + all.skip(0));
}

/// What is said when there are no roles to choose models for.
pub const NO_PREVIEW: &'static str = "no role preview yet — press r first";

/// What is said when no model is eligible.
pub const NO_ELIGIBLE: &'static str =
    "no available model has a completed game yet — pick models by hand to seed one";

/// The screen with the picked models seated; the Host is left untouched.
pub open spec fn with_lineup(s: SetupView, pool: Seq<ChoiceView>, pick: Seq<usize>) -> SetupView {
    SetupView {
        seat_choices: Seq::new(
            s.seat_choices.len(),
            |i: int| if 1 <= i <= pick.len() { pool[pick[i - 1] as int] } else { s.seat_choices[i] },
        ),
        ..s
    }
}

/// The models of a lineup.
pub open spec fn models_in(pool: Seq<ChoiceView>, pick: Seq<usize>) -> Seq<Seq<char>> {
    pick.map_values(|i: usize| pool[i as int].model)
}

/// What is said of a lineup.
pub open spec fn lineup_words(pool: Seq<ChoiceView>, pick: Seq<usize>) -> Seq<char> {
    let used = sorted_set(models_in(pool, pick));
    "balancer picked "@ + dec(used.len()) + "/"@ + dec(pool.len()) + " eligible models: "@ + joined(
        used,
        " · "@,
    )
}

/// The characters of a preview.
pub open spec fn preview_chars(roles: Seq<RoleAssignment>) -> Seq<Character> {
    roles.map_values(|a: RoleAssignment| a.true_character)
}

impl Setup {
    /// Whether models can be chosen for the current roles.
    pub fn has_preview(&self) -> (b: bool)
        requires
            self@.wf(),
        ensures
            b == (self@.setup_roles.len() == self@.player_count),
    {
        self.setup_roles.len() == self.player_count
    }

    /// Let the harness **choose which models play**, given the current roles, so the eval corpus
    /// balances. It draws from the eligible `pool` rather than merely permuting the picks, which
    /// would defeat the purpose. `sigma` is the covariance of the pool in fixed point. The Host
    /// has no role and is left untouched. Returns the status.
    #[verifier::loop_isolation(false)]
    pub fn shuffle_models(
        &mut self,
        pool: &Vec<SeatChoice>,
        hist: &History,
        sigma: &Vec<Vec<i64>>,
        rng: &mut Substream,
    ) -> (status: String)
        requires
            old(self)@.wf(),
            is_covariance(matrix_view(sigma@), pool@.len()),
        ensures
            old(self)@.setup_roles.len() != old(self)@.player_count ==> final(self)@ == old(self)@
                && status@ == NO_PREVIEW@ && *final(rng) == *old(rng),
            old(self)@.setup_roles.len() == old(self)@.player_count && pool@.len() == 0
                ==> final(self)@ == old(self)@ && status@ == NO_ELIGIBLE@ && *final(rng)
                == *old(rng),
            old(self)@.setup_roles.len() == old(self)@.player_count && pool@.len() > 0 ==> ({
                let (pick, after) = selected(
                    preview_chars(old(self)@.setup_roles),
                    pool_keys(choices_view(pool@)),
                    hist@,
                    matrix_view(sigma@),
                    *old(rng),
                );
                &&& final(self)@ == with_lineup(old(self)@, choices_view(pool@), pick)
                &&& status@ == lineup_words(choices_view(pool@), pick)
                &&& *final(rng) == after
            }),
            final(self)@.wf(),
    {
        if self.setup_roles.len() != self.player_count {
            return NO_PREVIEW.to_owned();
        }
        if pool.len() == 0 {
            return NO_ELIGIBLE.to_owned();
        }
        let ghost pv = choices_view(pool@);
        let mut chars: Vec<Character> = Vec::new();
        let mut i: usize = 0;
        while i < self.setup_roles.len()
            invariant
                i <= self.setup_roles@.len(),
                self == old(self),
                chars@.len() == i,
                forall|k: int|
                    0 <= k < i ==> (#[trigger] chars@[k]) == self.setup_roles@[k].true_character,
            decreases self.setup_roles@.len() - i,
        {
            chars.push(self.setup_roles[i].true_character);
            i += 1;
        }
        assert(chars@ =~= preview_chars(self@.setup_roles));
        let keys = list_pool_keys(pool);
        let pick = select_balanced_models(&chars, &keys, hist, sigma, rng);
        let mut used: Vec<String> = Vec::new();
        let ghost names = models_in(pv, pick@);
        let mut k: usize = 0;
        assert(texts(used@) =~= sorted_set(names.take(0)));
        while k < pick.len()
            invariant
                k <= pick@.len(),
                self.player_count == old(self).player_count,
                self.setup_roles == old(self).setup_roles,
                self.setup_row == old(self).setup_row,
                self.seat_choices@.len() == old(self).seat_choices@.len(),
                forall|j: int|
                    0 <= j < self.seat_choices@.len() ==> (#[trigger] self.seat_choices@[j])@ == (
                    if 1 <= j <= k { pv[pick@[j - 1] as int] } else { old(self)@.seat_choices[j] }),
                texts(used@) == sorted_set(names.take(k as int)),
            decreases pick@.len() - k,
        {
            assert(pick@[k as int] < pool@.len());
            let c = pool[pick[k]].clone();
            assert(c@ == pv[pick@[k as int] as int]);
            assert(names.take(k + 1).drop_last() =~= names.take(k as int));
            sort_in(&mut used, c.model.as_str());
            self.seat_choices.set(k + 1, c);
            k += 1;
        }
        assert(names.take(k as int) =~= names);
        assert(self@.seat_choices =~= with_lineup(old(self)@, pv, pick@).seat_choices);
        assert(texts(used@).len() == used@.len());
        let mut status = numbered("balancer picked ", used.len() as u64);
        status.append("/");
        push_dec(&mut status, pool.len() as u64);
        status.append(" eligible models: ");
        status.append(join(&used, " · ").as_str());
        status
    }
}

} // verus!
