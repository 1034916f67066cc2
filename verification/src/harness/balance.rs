//! History-balanced role assignment driven by **rating uncertainty**.
//!
//! The bag composition for a player count is fixed (see [`crate::game::setup`]);
//! what we choose is **which model plays which character**.
//!
//! # What the leaderboard actually consumes
//!
//! Ratings are fitted by Bradley–Terry on **one team-vs-team contest per game**: a team's
//! strength is the mean rating of its seats, and the fit's precision is its Fisher information
//! `M = τ·I + Σ_games z zᵀ`, where `z[m]` is model `m`'s (Good-share − Evil-share) that game.
//! The reported ± is the diagonal of the posterior covariance `Σ = M⁻¹`. Two consequences drive
//! this module:
//!
//! * A table where every seat is the same model has `z = 0` — the game shrinks no
//!   variance and teaches the ratings nothing at all.
//! * A model can have a perfectly even record and still be barely rateable, because a
//!   per-model count says nothing about *whom it played against*. What pins a rating is
//!   the connectivity of the contest graph, i.e. the off-diagonals of `Σ`.
//!
//! So the primary axis is **uncertainty**: give a seat to the model least **covariant** with the
//! opposition already placed — the least-resolved match-up. The per-model count axes — **team**
//! (Good / Evil), then **role type** (Townsfolk / Outsider / Minion / Demon), then **specific
//! role** (Empath, Poisoner, …) — are kept as lexicographic tie-breaks, so a model still can't
//! drift into always drawing the same team.
//!
//! Only models with **≥1 completed game** drive the balance. Seats whose model is new are
//! neutral: known-model seats are matched first and new-model seats fill the leftovers at
//! random, so a new model builds its own record rather than distorting everyone else's.
//!
//! The covariance comes in as fixed-point numbers; inverting the information matrix is left to
//! the caller.

pub use crate::harness::matching::balanced_assignment;
pub use crate::harness::selection::select_balanced_models;
use crate::json::{items_view, parse, parse_outcome, Json, JsonView};
use crate::roles::data::name_of;
use crate::roles::{team_of, type_of, Character};
use crate::text::{chars_of, split, split_on, str_eq, texts, trim, trimmed};
use crate::tools::rules_docs::{team_label, team_word, type_label, type_word};
use vstd::prelude::*;
use vstd::string::*;

verus! {

// ---------------------------------------------------------------------------
// Tallies
// ---------------------------------------------------------------------------

/// Counts under names.
pub type Tally = Seq<(Seq<char>, u32)>;

/// What a list of counts says.
pub open spec fn tally_view(v: Seq<(String, u32)>) -> Tally {
    v.map_values(|e: (String, u32)| (e.0@, e.1))
}

/// Position of the first entry under a name.
pub open spec fn entry_of<T>(t: Seq<(Seq<char>, T)>, key: Seq<char>) -> Option<int>
    decreases t.len(),
{
    if t.len() == 0 {
        None
    } else {
        match entry_of(t.drop_last(), key) {
            Some(i) => Some(i),
            None => if t.last().0 == key { Some(t.len() - 1) } else { None },
        }
    }
}

/// The entry under a name is the first one there.
pub proof fn entry_is_first<T>(t: Seq<(Seq<char>, T)>, key: Seq<char>)
    ensures
        match entry_of(t, key) {
            Some(i) => 0 <= i < t.len() && t[i].0 == key && (forall|k: int|
                0 <= k < i ==> (#[trigger] t[k]).0 != key),
            None => forall|k: int| 0 <= k < t.len() ==> (#[trigger] t[k]).0 != key,
        },
    decreases t.len(),
{
    if t.len() > 0 {
        let front = t.drop_last();
        entry_is_first(front, key);
        assert forall|k: int| 0 <= k < front.len() implies front[k] == #[trigger] t[k] by {}
        match entry_of(front, key) {
            Some(i) => {
                assert(front[i] == t[i]);
            },
            None => {},
        }
    }
}

/// The count under a name.
pub open spec fn count_in(t: Tally, key: Seq<char>) -> u32 {
    match entry_of(t, key) {
        Some(i) => t[i].1,
        None => 0,
    }
}

/// One more, up to the maximum.
pub open spec fn one_more(n: u32) -> u32 {
    if n < u32::MAX { (n + 1) as u32 } else { n }
}

/// The counts with one more under a name.
pub open spec fn bumped(t: Tally, key: Seq<char>) -> Tally {
    match entry_of(t, key) {
        Some(i) => t.update(i, (key, one_more(t[i].1))),
        None => t.push((key, 1)),
    }
}

/// Position of the first entry under a name.
#[verifier::loop_isolation(false)]
fn find_entry(t: &Vec<(String, u32)>, key: &str) -> (r: Option<usize>)
    ensures
        match r {
            Some(i) => i < t@.len() && entry_of(tally_view(t@), key@) == Some(i as int),
            None => entry_of(tally_view(t@), key@) is None,
        },
{
    let ghost all = tally_view(t@);
    proof {
        entry_is_first(all, key@);
    }
    let mut i: usize = 0;
    while i < t.len()
        invariant
            i <= t@.len(),
            forall|k: int| 0 <= k < i ==> (#[trigger] all[k]).0 != key@,
        decreases t@.len() - i,
    {
        assert(all[i as int] == (t@[i as int].0@, t@[i as int].1));
        if str_eq(t[i].0.as_str(), key) {
            return Some(i);
        }
        i += 1;
    }
    None
}

fn count_under(t: &Vec<(String, u32)>, key: &str) -> (n: u32)
    ensures
        n == count_in(tally_view(t@), key@),
{
    match find_entry(t, key) {
        Some(i) => {
            assert(tally_view(t@)[i as int].1 == t@[i as int].1);
            t[i].1
        },
        None => 0,
    }
}

fn bump(t: &mut Vec<(String, u32)>, key: &str)
    ensures
        tally_view(final(t)@) == bumped(tally_view(old(t)@), key@),
{
    match find_entry(t, key) {
        Some(i) => {
            proof {
                entry_is_first(tally_view(t@), key@);
            }
            let n = t[i].1.saturating_add(1);
            t.set(i, (key.to_owned(), n));
        },
        None => {
            t.push((key.to_owned(), 1));
        },
    }
    assert(tally_view(t@) =~= bumped(tally_view(old(t)@), key@));
}

// ---------------------------------------------------------------------------
// Records
// ---------------------------------------------------------------------------

/// Per-model play history. Only models with ≥1 recorded game get an entry.
#[derive(Debug)]
pub struct ModelStats {
    pub games: u32,
    /// "Good" / "Evil" → count.
    pub team: Vec<(String, u32)>,
    /// "Townsfolk" / "Outsider" / "Minion" / "Demon" → count.
    pub role_type: Vec<(String, u32)>,
    /// Role display name ("Fortune Teller", …) → count.
    pub role: Vec<(String, u32)>,
}

/// What a record says.
pub struct StatsView {
    pub games: u32,
    pub team: Tally,
    pub role_type: Tally,
    pub role: Tally,
}

impl View for ModelStats {
    type V = StatsView;

    open spec fn view(&self) -> StatsView {
        StatsView {
            games: self.games,
            team: tally_view(self.team@),
            role_type: tally_view(self.role_type@),
            role: tally_view(self.role@),
        }
    }
}

/// What a seat has played, as far as it is known.
pub struct PartView {
    pub team: Option<Seq<char>>,
    pub role_type: Option<Seq<char>>,
    pub role: Option<Seq<char>>,
}

/// The counts with one more under a name, if there is one.
pub open spec fn bumped_if(t: Tally, key: Option<Seq<char>>) -> Tally {
    match key {
        Some(k) => bumped(t, k),
        None => t,
    }
}

impl StatsView {
    pub open spec fn empty() -> StatsView {
        StatsView { games: 0, team: seq![], role_type: seq![], role: seq![] }
    }

    /// The record with one more seat played.
    pub open spec fn played(self, part: PartView) -> StatsView {
        StatsView {
            games: one_more(self.games),
            team: bumped_if(self.team, part.team),
            role_type: bumped_if(self.role_type, part.role_type),
            role: bumped_if(self.role, part.role),
        }
    }
}

/// What playing a character counts for.
pub open spec fn part_of(c: Character) -> PartView {
    PartView {
        team: Some(team_word(team_of(c))),
        role_type: Some(type_word(type_of(c))),
        role: Some(name_of(c)),
    }
}

impl Default for ModelStats {
    fn default() -> (s: ModelStats)
        ensures
            s@ == StatsView::empty(),
    {
        let s = ModelStats {
            games: 0,
            team: Vec::new(),
            role_type: Vec::new(),
            role: Vec::new(),
        };
        assert(s@.team =~= seq![]);
        assert(s@.role_type =~= seq![]);
        assert(s@.role =~= seq![]);
        s
    }
}

/// A copy of a list of counts.
fn copy_tally(t: &Vec<(String, u32)>) -> (c: Vec<(String, u32)>)
    ensures
        tally_view(c@) == tally_view(t@),
{
    let mut c: Vec<(String, u32)> = Vec::new();
    let mut i: usize = 0;
    while i < t.len()
        invariant
            i <= t@.len(),
            c@.len() == i,
            forall|k: int| 0 <= k < i ==> (#[trigger] c@[k]).0@ == t@[k].0@ && c@[k].1 == t@[k].1,
        decreases t@.len() - i,
    {
        c.push((t[i].0.clone(), t[i].1));
        i += 1;
    }
    assert(tally_view(c@) =~= tally_view(t@));
    c
}

impl Clone for ModelStats {
    fn clone(&self) -> (c: ModelStats)
        ensures
            c@ == self@,
    {
        ModelStats {
            games: self.games,
            team: copy_tally(&self.team),
            role_type: copy_tally(&self.role_type),
            role: copy_tally(&self.role),
        }
    }
}

impl ModelStats {
    pub fn team_n(&self, k: &str) -> (n: u32)
        ensures
            n == count_in(self@.team, k@),
    {
        count_under(&self.team, k)
    }

    pub fn type_n(&self, k: &str) -> (n: u32)
        ensures
            n == count_in(self@.role_type, k@),
    {
        count_under(&self.role_type, k)
    }

    pub fn role_n(&self, k: &str) -> (n: u32)
        ensures
            n == count_in(self@.role, k@),
    {
        count_under(&self.role, k)
    }

    /// Count one more seat played.
    pub fn note_part(&mut self, team: Option<&str>, role_type: Option<&str>, role: Option<&str>)
        ensures
            final(self)@ == old(self)@.played(
                PartView {
                    team: opt_str(team),
                    role_type: opt_str(role_type),
                    role: opt_str(role),
                },
            ),
    {
        self.games = self.games.saturating_add(1);
        if let Some(t) = team {
            bump(&mut self.team, t);
        }
        if let Some(t) = role_type {
            bump(&mut self.role_type, t);
        }
        if let Some(r) = role {
            bump(&mut self.role, r);
        }
    }

    /// Count one more seat played as this character.
    pub fn note_character(&mut self, c: Character)
        ensures
            final(self)@ == old(self)@.played(part_of(c)),
    {
        self.note_part(
            Some(team_label(c.team())),
            Some(type_label(c.character_type())),
            Some(c.display_name()),
        );
    }
}

/// What an optional text says.
pub open spec fn opt_str(s: Option<&str>) -> Option<Seq<char>> {
    match s {
        Some(t) => Some(t@),
        None => None,
    }
}

/// The ranking key of a model on a backend.
pub open spec fn key_of(backend: Seq<char>, model: Seq<char>) -> Seq<char> {
    if model.len() == 0 {
        seq![]
    } else if backend.len() == 0 || backend == "grok"@ {
        model
    } else {
        backend + ":"@ + model
    }
}

/// Compose the ranking/identity node key for a seat. Grok — and rows with no `backend` field —
/// stay **bare**, so both resolve to the same bare key and no leaderboard node splits. Other
/// backends are namespaced `<backend>:<model>`. Empty model → empty key (the caller skips it).
pub fn node_key(backend: &str, model: &str) -> (s: String)
    ensures
        s@ == key_of(backend@, model@),
{
    if chars_of(model).len() == 0 {
        String::new()
    } else if chars_of(backend).len() == 0 || str_eq(backend, "grok") {
        model.to_owned()
    } else {
        let mut s = backend.to_owned();
        s.append(":");
        s.append(model);
        s
    }
}

// ---------------------------------------------------------------------------
// History
// ---------------------------------------------------------------------------

/// One completed game's team contrast: for each model that does not cancel out, how many Good
/// and how many Evil seats it had, of how many.
#[derive(Debug)]
pub struct Contest {
    pub good_total: u64,
    pub evil_total: u64,
    pub shares: Vec<(String, u32, u32)>,
}

/// What a contest says.
pub struct ContestView {
    pub good_total: u64,
    pub evil_total: u64,
    pub shares: Seq<(Seq<char>, u32, u32)>,
}

/// What a list of shares says.
pub open spec fn shares_view(v: Seq<(String, u32, u32)>) -> Seq<(Seq<char>, u32, u32)> {
    v.map_values(|e: (String, u32, u32)| (e.0@, e.1, e.2))
}

impl View for Contest {
    type V = ContestView;

    open spec fn view(&self) -> ContestView {
        ContestView {
            good_total: self.good_total,
            evil_total: self.evil_total,
            shares: shares_view(self.shares@),
        }
    }
}

/// Everything the balancer reads out of the results corpus.
#[derive(Debug)]
pub struct History {
    /// Per-model record (team / role type / role counts).
    pub models: Vec<(String, ModelStats)>,
    /// One entry per completed game with a contrast to learn from.
    pub contests: Vec<Contest>,
}

/// What a history says.
pub struct HistoryView {
    pub models: Seq<(Seq<char>, StatsView)>,
    pub contests: Seq<ContestView>,
}

/// What a list of records says.
pub open spec fn models_view(v: Seq<(String, ModelStats)>) -> Seq<(Seq<char>, StatsView)> {
    v.map_values(|e: (String, ModelStats)| (e.0@, e.1@))
}

/// What a list of contests says.
pub open spec fn contests_view(v: Seq<Contest>) -> Seq<ContestView> {
    v.map_values(|c: Contest| c@)
}

impl View for History {
    type V = HistoryView;

    open spec fn view(&self) -> HistoryView {
        HistoryView {
            models: models_view(self.models@),
            contests: contests_view(self.contests@),
        }
    }
}

/// The record of a model.
pub open spec fn stats_in(
    models: Seq<(Seq<char>, StatsView)>,
    key: Seq<char>,
) -> Option<StatsView> {
    match entry_of(models, key) {
        Some(i) => Some(models[i].1),
        None => None,
    }
}

/// Position of the record of a model.
#[verifier::loop_isolation(false)]
fn find_model(models: &Vec<(String, ModelStats)>, key: &str) -> (r: Option<usize>)
    ensures
        match r {
            Some(i) => i < models@.len() && entry_of(models_view(models@), key@) == Some(i as int),
            None => entry_of(models_view(models@), key@) is None,
        },
{
    let ghost all = models_view(models@);
    proof {
        entry_is_first(all, key@);
    }
    let mut i: usize = 0;
    while i < models.len()
        invariant
            i <= models@.len(),
            forall|k: int| 0 <= k < i ==> (#[trigger] all[k]).0 != key@,
        decreases models@.len() - i,
    {
        assert(all[i as int] == (models@[i as int].0@, models@[i as int].1@));
        if str_eq(models[i].0.as_str(), key) {
            return Some(i);
        }
        i += 1;
    }
    None
}

/// The record of a model.
pub fn stats_of<'a>(models: &'a Vec<(String, ModelStats)>, key: &str) -> (r: Option<&'a ModelStats>)
    ensures
        match r {
            Some(s) => stats_in(models_view(models@), key@) == Some(s@),
            None => stats_in(models_view(models@), key@) is None,
        },
{
    match find_model(models, key) {
        Some(i) => {
            assert(models_view(models@)[i as int].1 == models@[i as int].1@);
            Some(&models[i].1)
        },
        None => None,
    }
}

/// The records with one more seat played by a model.
pub open spec fn with_part(
    models: Seq<(Seq<char>, StatsView)>,
    key: Seq<char>,
    part: PartView,
) -> Seq<
    (Seq<char>, StatsView),
> {
    match entry_of(models, key) {
        Some(i) => models.update(i, (key, models[i].1.played(part))),
        None => models.push((key, StatsView::empty().played(part))),
    }
}

fn note_model(
    models: &mut Vec<(String, ModelStats)>,
    key: &str,
    team: Option<&str>,
    role_type: Option<&str>,
    role: Option<&str>,
)
    ensures
        models_view(final(models)@) == with_part(
            models_view(old(models)@),
            key@,
            PartView { team: opt_str(team), role_type: opt_str(role_type), role: opt_str(role) },
        ),
{
    let ghost part = PartView {
        team: opt_str(team),
        role_type: opt_str(role_type),
        role: opt_str(role),
    };
    match find_model(models, key) {
        Some(i) => {
            proof {
                entry_is_first(models_view(models@), key@);
            }
            let mut s = models[i].1.clone();
            s.note_part(team, role_type, role);
            models.set(i, (key.to_owned(), s));
        },
        None => {
            let mut s = ModelStats::default();
            s.note_part(team, role_type, role);
            models.push((key.to_owned(), s));
        },
    }
    assert(models_view(models@) =~= with_part(models_view(old(models)@), key@, part));
}

/// The sum of all counts.
pub open spec fn total_of(t: Tally) -> nat
    decreases t.len(),
{
    if t.len() == 0 { 0 } else { total_of(t.drop_last()) + t.last().1 as nat }
}

/// A sum that stops at `u64::MAX`.
pub open spec fn total_count(t: Tally) -> u64 {
    if total_of(t) <= u64::MAX { total_of(t) as u64 } else { u64::MAX }
}

#[verifier::loop_isolation(false)]
fn sum_up(t: &Vec<(String, u32)>) -> (n: u64)
    ensures
        n == total_count(tally_view(t@)),
{
    let ghost all = tally_view(t@);
    let mut n: u64 = 0;
    let mut i: usize = 0;
    while i < t.len()
        invariant
            i <= t@.len(),
            n == total_count(all.take(i as int)),
        decreases t@.len() - i,
    {
        assert(all.take(i + 1).drop_last() =~= all.take(i as int));
        assert(all[i as int] == (t@[i as int].0@, t@[i as int].1));
        n = n.saturating_add(t[i].1 as u64);
        i += 1;
    }
    assert(all.take(i as int) =~= all);
    n
}

/// The Good and Evil share of a model cancel.
pub open spec fn cancels(g: u32, e: u32, good_total: u64, evil_total: u64) -> bool {
    g * evil_total == e * good_total
}

/// Models with Good seats that do not cancel.
pub open spec fn good_shares(good: Tally, evil: Tally, gt: u64, et: u64) -> Seq<
    (Seq<char>, u32, u32),
>
    decreases good.len(),
{
    if good.len() == 0 {
        seq![]
    } else {
        let front = good_shares(good.drop_last(), evil, gt, et);
        let (name, g) = good.last();
        let e = count_in(evil, name);
        if cancels(g, e, gt, et) { front } else { front.push((name, g, e)) }
    }
}

/// Models with Evil seats only that do not cancel.
pub open spec fn evil_shares(good: Tally, evil: Tally, gt: u64, et: u64) -> Seq<
    (Seq<char>, u32, u32),
>
    decreases evil.len(),
{
    if evil.len() == 0 {
        seq![]
    } else {
        let front = evil_shares(good, evil.drop_last(), gt, et);
        let (name, e) = evil.last();
        if entry_of(good, name) is Some || cancels(0, e, gt, et) {
            front
        } else {
            front.push((name, 0, e))
        }
    }
}

/// The contrast of a game from its per-team seat counts: none where a side is empty or every
/// model's shares cancel.
pub open spec fn contrast(good: Tally, evil: Tally) -> Option<ContestView> {
    let gt = total_count(good);
    let et = total_count(evil);
    let shares = good_shares(good, evil, gt, et) + evil_shares(good, evil, gt, et);
    if gt == 0 || et == 0 || shares.len() == 0 {
        None
    } else {
        Some(ContestView { good_total: gt, evil_total: et, shares })
    }
}

fn shares_cancel(g: u32, e: u32, gt: u64, et: u64) -> (b: bool)
    ensures
        b == cancels(g, e, gt, et),
{
    assert(0 <= g * et <= u128::MAX && 0 <= e * gt <= u128::MAX) by (nonlinear_arith)
        requires
            g <= u32::MAX,
            e <= u32::MAX,
            gt <= u64::MAX,
            et <= u64::MAX,
    ;
    (g as u128) * (et as u128) == (e as u128) * (gt as u128)
}

/// The mean-team contrast for one game from its per-team seat counts, or `None` when
/// a side is empty (no cross-team contrast to learn from). Models whose Good and Evil
/// shares cancel drop out; a single model spanning both sides cancels to nothing.
#[verifier::loop_isolation(false)]
pub fn contest_of(good: &Vec<(String, u32)>, evil: &Vec<(String, u32)>) -> (r: Option<Contest>)
    ensures
        match r {
            Some(c) => contrast(tally_view(good@), tally_view(evil@)) == Some(c@),
            None => contrast(tally_view(good@), tally_view(evil@)) is None,
        },
{
    let ghost gv = tally_view(good@);
    let ghost ev = tally_view(evil@);
    let gt = sum_up(good);
    let et = sum_up(evil);
    if gt == 0 || et == 0 {
        return None;
    }
    let mut shares: Vec<(String, u32, u32)> = Vec::new();
    let mut i: usize = 0;
    assert(shares_view(shares@) =~= good_shares(gv.take(0), ev, gt, et));
    while i < good.len()
        invariant
            i <= good@.len(),
            shares_view(shares@) == good_shares(gv.take(i as int), ev, gt, et),
        decreases good@.len() - i,
    {
        let ghost before = shares@;
        assert(gv.take(i + 1).drop_last() =~= gv.take(i as int));
        assert(gv[i as int] == (good@[i as int].0@, good@[i as int].1));
        let g = good[i].1;
        let e = count_under(evil, good[i].0.as_str());
        if !shares_cancel(g, e, gt, et) {
            let name = good[i].0.clone();
            shares.push((name, g, e));
            assert(shares_view(shares@) =~= shares_view(before).push((name@, g, e)));
        }
        i += 1;
    }
    assert(gv.take(i as int) =~= gv);
    let ghost first = shares_view(shares@);
    let mut k: usize = 0;
    assert(shares_view(shares@) =~= first + evil_shares(gv, ev.take(0), gt, et));
    while k < evil.len()
        invariant
            k <= evil@.len(),
            shares_view(shares@) == first + evil_shares(gv, ev.take(k as int), gt, et),
        decreases evil@.len() - k,
    {
        let ghost before = shares@;
        assert(ev.take(k + 1).drop_last() =~= ev.take(k as int));
        assert(ev[k as int] == (evil@[k as int].0@, evil@[k as int].1));
        let e = evil[k].1;
        if find_entry(good, evil[k].0.as_str()).is_none() && !shares_cancel(0, e, gt, et) {
            let name = evil[k].0.clone();
            shares.push((name, 0, e));
            assert(shares_view(shares@) =~= shares_view(before).push((name@, 0u32, e)));
            assert(shares_view(shares@) =~= first + evil_shares(gv, ev.take(k + 1), gt, et));
        }
        k += 1;
    }
    assert(ev.take(k as int) =~= ev);
    if shares.len() == 0 {
        assert(shares_view(shares@).len() == 0);
        return None;
    }
    assert(shares_view(shares@).len() == shares@.len());
    Some(Contest { good_total: gt, evil_total: et, shares })
}

/// A game while its seats are read.
pub struct TableView {
    pub models: Seq<(Seq<char>, StatsView)>,
    pub good: Tally,
    pub evil: Tally,
}

/// One more seat read. A seat without a model is skipped; one without a backend is on the
/// default one.
pub open spec fn seat_read(t: TableView, s: JsonView) -> TableView {
    let model = match s.text_at("model"@) {
        Some(m) => m,
        None => ""@,
    };
    let backend = match s.text_at("backend"@) {
        Some(b) => b,
        None => "grok"@,
    };
    let key = key_of(backend, model);
    let part = PartView {
        team: s.text_at("team"@),
        role_type: s.text_at("character_type"@),
        role: s.text_at("true_character"@),
    };
    if key.len() == 0 {
        t
    } else {
        TableView {
            models: with_part(t.models, key, part),
            good: if part.team == Some("Good"@) { bumped(t.good, key) } else { t.good },
            evil: if part.team == Some("Evil"@) { bumped(t.evil, key) } else { t.evil },
        }
    }
}

/// All seats of a game read.
pub open spec fn seats_read(models: Seq<(Seq<char>, StatsView)>, seats: Seq<JsonView>) -> TableView
    decreases seats.len(),
{
    if seats.len() == 0 {
        TableView { models, good: seq![], evil: seq![] }
    } else {
        seat_read(seats_read(models, seats.drop_last()), seats.last())
    }
}

/// The history after one more record: only completed games count.
pub open spec fn record_read(h: HistoryView, v: JsonView) -> HistoryView {
    if v.text_at("event"@) != Some("game_end"@) {
        h
    } else {
        match v.items_at("seats"@) {
            None => h,
            Some(seats) => {
                let t = seats_read(h.models, seats);
                HistoryView {
                    models: t.models,
                    contests: match contrast(t.good, t.evil) {
                        Some(c) => h.contests.push(c),
                        None => h.contests,
                    },
                }
            },
        }
    }
}

/// The history after one more line; a line that cannot be read says nothing.
pub open spec fn line_read(h: HistoryView, line: Seq<char>) -> HistoryView {
    let text = trimmed(line);
    if text.len() == 0 {
        h
    } else {
        match parse_outcome(text) {
            Ok(v) => record_read(h, v),
            Err(_) => h,
        }
    }
}

/// The history that the lines tell.
pub open spec fn lines_read(lines: Seq<Seq<char>>) -> HistoryView
    decreases lines.len(),
{
    if lines.len() == 0 {
        HistoryView { models: seq![], contests: seq![] }
    } else {
        line_read(lines_read(lines.drop_last()), lines.last())
    }
}

impl Default for History {
    fn default() -> (h: History)
        ensures
            h@ == lines_read(seq![]),
    {
        let h = History { models: Vec::new(), contests: Vec::new() };
        assert(h@.models =~= seq![]);
        assert(h@.contests =~= seq![]);
        h
    }
}

impl History {
    /// Read one record: the per-model counts and the team contrast of a completed game. An
    /// aborted game produces no eval signal, so counting it would balance against games that
    /// never mattered.
    #[verifier::loop_isolation(false)]
    pub fn note_record(&mut self, v: &Json)
        ensures
            final(self)@ == record_read(old(self)@, v@),
    {
        match v.str_at("event") {
            Some(e) => if !str_eq(e, "game_end") {
                return;
            },
            None => return,
        }
        let seats = match v.array_at("seats") {
            Some(s) => s,
            None => return,
        };
        let ghost all = items_view(seats@);
        let ghost start = self@;
        let mut good: Vec<(String, u32)> = Vec::new();
        let mut evil: Vec<(String, u32)> = Vec::new();
        let mut i: usize = 0;
        assert(tally_view(good@) =~= seq![]);
        assert(tally_view(evil@) =~= seq![]);
        while i < seats.len()
            invariant
                i <= seats@.len(),
                self.contests == old(self).contests,
                (TableView {
                    models: self@.models,
                    good: tally_view(good@),
                    evil: tally_view(evil@),
                }) == seats_read(start.models, all.take(i as int)),
            decreases seats@.len() - i,
        {
            assert(all.take(i + 1).drop_last() =~= all.take(i as int));
            assert(all[i as int] == seats@[i as int]@);
            let s = &seats[i];
            let model = match s.str_at("model") {
                Some(m) => m,
                None => "",
            };
            // Compose-on-read: rows without a backend default to grok → bare model.
            let backend = match s.str_at("backend") {
                Some(b) => b,
                None => "grok",
            };
            let key = node_key(backend, model);
            if chars_of(key.as_str()).len() > 0 {
                let team = s.str_at("team");
                note_model(
                    &mut self.models,
                    key.as_str(),
                    team,
                    s.str_at("character_type"),
                    s.str_at("true_character"),
                );
                if let Some(t) = team {
                    if str_eq(t, "Good") {
                        bump(&mut good, key.as_str());
                    }
                    if str_eq(t, "Evil") {
                        bump(&mut evil, key.as_str());
                    }
                }
            }
            i += 1;
        }
        assert(all.take(i as int) =~= all);
        if let Some(c) = contest_of(&good, &evil) {
            let ghost before = self.contests@;
            self.contests.push(c);
            assert(contests_view(self.contests@) =~= contests_view(before).push(c@));
        }
    }
}

/// Read play [`History`] from the text of a results corpus: the per-model record and the
/// per-game team contrasts, from every `game_end` event (one per *completed* game).
/// Unreadable lines say nothing.
#[verifier::loop_isolation(false)]
pub fn read_history(text: &str) -> (h: History)
    ensures
        h@ == lines_read(split(text@, '\n')),
{
    let lines = split_on(text, '\n');
    let ghost all = texts(lines@);
    let mut h = History::default();
    let mut i: usize = 0;
    assert(all.take(0) =~= seq![]);
    while i < lines.len()
        invariant
            i <= lines@.len(),
            h@ == lines_read(all.take(i as int)),
        decreases lines@.len() - i,
    {
        assert(all.take(i + 1).drop_last() =~= all.take(i as int));
        assert(all[i as int] == lines@[i as int]@);
        let line = trim(lines[i].as_str());
        if chars_of(line.as_str()).len() > 0 {
            if let Ok(v) = parse(line.as_str()) {
                h.note_record(&v);
            }
        }
        i += 1;
    }
    assert(all.take(i as int) =~= all);
    h
}

/// Per-model record only — [`read_history`] without the contests.
pub fn read_model_stats(text: &str) -> (m: Vec<(String, ModelStats)>)
    ensures
        models_view(m@) == lines_read(split(text@, '\n')).models,
{
    read_history(text).models
}

} // verus!
