//! Poisoner, Imp kill, starpass, Mayor bounce.

use crate::game::ability::protect::{
    demon_killable, is_demon_killable, is_monk_protected, is_soldier_immune, monk_protected,
    soldier_immune,
};
use crate::game::ids::{holds_seat, SeatId};
use crate::game::phase::NightStep;
use crate::game::seat::{
    ascending, find_seat, head_count, ids_where, seat_of, sort_ascending, with_seat, Seat,
};
use crate::game::st_policy::MayorRedirectChoice;
use crate::game::state::{Game, GameView};
use crate::game::win::{
    apply_demon_death, imp_notice, living_count, turned_imp, win_check, you_are_the_imp,
};
use crate::roles::{team_of, type_of, Character, CharacterType, Team};
use crate::text::{dec, numbered};
use vstd::prelude::*;
use vstd::string::*;

verus! {

/// Outcome of [`try_demon_kill`].
#[derive(Debug, Clone, Copy, PartialEq, Eq, Structural)]
pub enum KillResult {
    /// Target already dead — kill sinks with no public death.
    Sank,
    /// No death (Monk, Soldier, Mayor bounce nowhere, or Imp poisoned).
    Survived,
    /// A seat died to the demon (normal kill or Mayor bounce victim).
    Died(SeatId),
    /// Imp self-kill; a living Minion became the Imp.
    Starpass { dead_imp: SeatId, new_imp: SeatId },
}

/// A living seat whose true character is a Minion.
pub open spec fn living_minion(s: Seat) -> bool {
    s.alive && (s.true_character matches Some(c) && type_of(c) == CharacterType::Minion)
}

/// Whom a demon attack on the Mayor may bounce to: a killable good seat, and not a working
/// Mayor.
pub open spec fn bounce_candidate(seats: Seq<Seat>, mayor: SeatId, s: Seat) -> bool {
    &&& s.id != mayor
    &&& demon_killable(seats, s.id)
    &&& s.true_character matches Some(c) && team_of(c) == Team::Good && !(c == Character::Mayor
        && !s.disabled())
}

/// The queue holds a Ravenkeeper wake of this seat.
pub open spec fn has_raven_wake(queue: Seq<NightStep>, seat: SeatId) -> bool {
    queue.contains(NightStep::Ravenkeeper { seat })
}

impl GameView {
    /// Nobody is poisoned.
    pub open spec fn unpoisoned(self) -> GameView {
        GameView {
            seats: self.seats.map_values(|s: Seat| Seat { poisoned: false, ..s }),
            ..self
        }
    }

    /// The first seat of this id is poisoned.
    pub open spec fn poisoned(self, target: SeatId) -> GameView {
        match seat_of(self.seats, target) {
            Some(s) => GameView {
                seats: with_seat(self.seats, target, Seat { poisoned: true, ..s }),
                ..self
            },
            None => self,
        }
    }

    /// The seat died tonight; one that is already dead stays as it is.
    pub open spec fn killed_tonight(self, seat: SeatId) -> GameView {
        let deaths = if self.deaths_tonight.contains(seat) {
            self.deaths_tonight
        } else {
            self.deaths_tonight.push(seat)
        };
        match seat_of(self.seats, seat) {
            Some(s) => if s.alive {
                GameView {
                    seats: with_seat(self.seats, seat, Seat { alive: false, ..s }),
                    deaths_tonight: deaths,
                    ..self
                }
            } else {
                self
            },
            None => GameView { deaths_tonight: deaths, ..self },
        }
    }

    /// A Ravenkeeper wake of this seat follows the current step, unless the queue has one.
    pub open spec fn raven_wake_inserted(self, seat: SeatId) -> GameView {
        if has_raven_wake(self.night_queue, seat) {
            self
        } else {
            let at = if self.night_cursor < self.night_queue.len() {
                self.night_cursor + 1
            } else {
                self.night_queue.len() as int
            };
            GameView {
                night_queue: self.night_queue.insert(at, NightStep::Ravenkeeper { seat }),
                ..self
            }
        }
    }

    /// What a death by the Demon brings: the poison of a dead Poisoner ends, a seat that faces
    /// as Ravenkeeper wakes, a dead Imp may be succeeded, and the win is checked.
    #[verifier::opaque]
    pub open spec fn demon_slew(self, seat: SeatId) -> GameView {
        let alive_before = head_count(self.seats);
        let killed = self.killed_tonight(seat);
        match seat_of(self.seats, seat) {
            Some(s) => {
                let cured = if s.true_character == Some(Character::Poisoner) {
                    killed.unpoisoned()
                } else {
                    killed
                };
                let woken = if s.face() == Some(Character::Ravenkeeper) {
                    cured.raven_wake_inserted(seat)
                } else {
                    cured
                };
                let followed = if s.true_character == Some(Character::Imp) {
                    woken.demon_succeeded(alive_before)
                } else {
                    woken
                };
                followed.win_checked()
            },
            None => killed.win_checked(),
        }
    }

    /// The Minion at `new_imp` became the Imp: it is told so, the poison of a Poisoner ends,
    /// and the win is checked.
    #[verifier::opaque]
    pub open spec fn starpassed_to(self, new_imp: SeatId) -> GameView {
        let turned = match seat_of(self.seats, new_imp) {
            Some(s) => {
                let g = GameView {
                    seats: with_seat(self.seats, new_imp, turned_imp(s)),
                    ..self
                };
                if s.true_character == Some(Character::Poisoner) { g.unpoisoned() } else { g }
            },
            None => self,
        };
        turned.whisper(new_imp, you_are_the_imp()).win_checked()
    }

    /// The living Minions in ascending order.
    pub open spec fn living_minions(self) -> Seq<SeatId> {
        ascending(ids_where(self.seats, |s: Seat| living_minion(s)))
    }

    /// The stream of night draws under a name, one per queue position.
    pub open spec fn night_stream(self, name: Seq<char>) -> crate::rng::Substream {
        self.rng.stream(name + dec(self.night_cursor as nat))
    }

    /// The Imp killed itself: a living Minion drawn at random takes over; without one Good wins.
    #[verifier::opaque]
    pub open spec fn starpass(self, imp: SeatId) -> (GameView, KillResult) {
        let dead = self.killed_tonight(imp);
        let minions = dead.living_minions();
        if minions.len() == 0 {
            (dead.win_checked(), KillResult::Died(imp))
        } else {
            let new_imp = minions[dead.night_stream("starpass:c"@).choice(minions.len()).0];
            (dead.starpassed_to(new_imp), KillResult::Starpass { dead_imp: imp, new_imp })
        }
    }

    /// Whom the attack on this Mayor may bounce to, in ascending order.
    pub open spec fn bounce_candidates(self, mayor: SeatId) -> Seq<SeatId> {
        ascending(ids_where(self.seats, |s: Seat| bounce_candidate(self.seats, mayor, s)))
    }

    /// The attack on a Mayor bounces to a candidate drawn at random; without one nobody dies.
    #[verifier::opaque]
    pub open spec fn mayor_bounced(self, mayor: SeatId) -> (GameView, KillResult) {
        let candidates = self.bounce_candidates(mayor);
        if candidates.len() == 0 {
            (self, KillResult::Survived)
        } else {
            let victim =
                candidates[self.night_stream("mayor_bounce:c"@).choice(candidates.len()).0];
            (self.demon_slew(victim), KillResult::Died(victim))
        }
    }

    /// A demon attack on somebody else: it sinks on the dead, the Monk and the Soldier stop it,
    /// a working Mayor deflects it, anyone else dies.
    #[verifier::opaque]
    pub open spec fn attacked(self, target: SeatId) -> (GameView, KillResult) {
        match seat_of(self.seats, target) {
            None => (self, KillResult::Sank),
            Some(s) => if !s.alive {
                (self, KillResult::Sank)
            } else if monk_protected(self.seats, target) || soldier_immune(self.seats, target) {
                (self, KillResult::Survived)
            } else if s.true_character == Some(Character::Mayor) && !s.disabled() {
                self.mayor_bounced(target)
            } else {
                (self.demon_slew(target), KillResult::Died(target))
            },
        }
    }

    /// The Imp's night kill: nothing while the Imp is disabled, a starpass on itself, an attack
    /// on anyone else.
    #[verifier::opaque]
    pub open spec fn demon_kill(self, demon: SeatId, target: SeatId) -> (GameView, KillResult) {
        if !(seat_of(self.seats, demon) matches Some(s) && !s.disabled()) {
            (self, KillResult::Survived)
        } else if target == demon {
            self.starpass(demon)
        } else {
            self.attacked(target)
        }
    }

    /// The host decided what the attack on the Mayor does.
    pub open spec fn mayor_decided(self, mayor: SeatId, choice: MayorRedirectChoice) -> (
        GameView,
        KillResult,
    ) {
        match choice {
            MayorRedirectChoice::KillMayor => (self.demon_slew(mayor), KillResult::Died(mayor)),
            MayorRedirectChoice::KillOther { target } => if demon_killable(self.seats, target) {
                (self.demon_slew(target), KillResult::Died(target))
            } else {
                (self, KillResult::Survived)
            },
            MayorRedirectChoice::Nobody => (self, KillResult::Survived),
        }
    }
}

/// Clear `poisoned` on every seat (start of Poisoner step).
#[verifier::loop_isolation(false)]
pub fn clear_poisons(game: &mut Game)
    ensures
        final(game)@ == old(game)@.unpoisoned(),
{
    let ghost before = game@;
    let mut i: usize = 0;
    while i < game.seats.len()
        invariant
            i <= game.seats.len(),
            game.seats.len() == before.seats.len(),
            game@ == (GameView { seats: game@.seats, ..before }),
            forall|k: int|
                0 <= k < game.seats.len() ==> #[trigger] game@.seats[k] == (if k < i {
                    Seat { poisoned: false, ..before.seats[k] }
                } else {
                    before.seats[k]
                }),
        decreases game.seats.len() - i,
    {
        game.seats[i].poisoned = false;
        i += 1;
    }
    assert(game@.seats =~= before.unpoisoned().seats);
}

/// Poison ends when the Poisoner dies or stops being the Poisoner (starpass, etc.).
pub fn on_poisoner_left_play(game: &mut Game)
    ensures
        final(game)@ == old(game)@.unpoisoned(),
{
    clear_poisons(game);
}

/// Mark `target` poisoned (Poisoner ability not disabled).
pub fn apply_poison(game: &mut Game, target: SeatId)
    ensures
        final(game)@ == old(game)@.poisoned(target),
{
    if let Some(i) = find_seat(&game.seats, target) {
        game.seats[i].poisoned = true;
    }
}

/// Resolve Imp night kill / starpass.
///
/// `demon_seat` is the acting Imp. Side-effects: deaths, Ravenkeeper queue insert,
/// private `YouAre` on starpass, win check.
pub fn try_demon_kill(game: &mut Game, demon_seat: SeatId, target: SeatId) -> (r: KillResult)
    ensures
        (final(game)@, r) == old(game)@.demon_kill(demon_seat, target),
{
    reveal(GameView::demon_kill);
    let imp_disabled = match find_seat(&game.seats, demon_seat) {
        Some(i) => game.seats[i].ability_disabled(),
        None => true,
    };
    if imp_disabled {
        return KillResult::Survived;
    }
    if target == demon_seat {
        return resolve_starpass(game, demon_seat);
    }
    kill_chain(game, target)
}

/// The ids of the living Minions in ascending order.
#[verifier::loop_isolation(false)]
fn living_minion_ids(game: &Game) -> (v: Vec<SeatId>)
    ensures
        v@ == game@.living_minions(),
{
    let ghost keep = |s: Seat| living_minion(s);
    let mut ids: Vec<SeatId> = Vec::new();
    let mut i: usize = 0;
    while i < game.seats.len()
        invariant
            i <= game.seats.len(),
            ids@ == ids_where(game@.seats.take(i as int), keep),
        decreases game.seats.len() - i,
    {
        let s = &game.seats[i];
        let is_minion = match s.true_character {
            Some(c) => c.character_type() == CharacterType::Minion,
            None => false,
        };
        proof {
            assert(game@.seats.take(i + 1).drop_last() =~= game@.seats.take(i as int));
        }
        if s.alive && is_minion {
            ids.push(s.id);
        }
        i += 1;
    }
    assert(game@.seats.take(i as int) =~= game@.seats);
    sort_ascending(&ids)
}

fn resolve_starpass(game: &mut Game, imp_seat: SeatId) -> (r: KillResult)
    ensures
        (final(game)@, r) == old(game)@.starpass(imp_seat),
{
    reveal(GameView::starpass);
    // Imp dies first.
    mark_dead(game, imp_seat);
    let living_minions = living_minion_ids(game);
    if living_minions.len() == 0 {
        // No minion: the Imp dies and Good wins.
        win_check(game);
        return KillResult::Died(imp_seat);
    }
    let label = numbered("starpass:c", game.night_cursor as u64);
    let mut rng = game.rng.substream(label.as_str());
    let new_imp = living_minions[rng.pick(living_minions.len())];
    pass_imp_to(game, new_imp);
    KillResult::Starpass { dead_imp: imp_seat, new_imp }
}

/// Make `new_imp` the Imp and check the win.
fn pass_imp_to(game: &mut Game, new_imp: SeatId)
    ensures
        final(game)@ == old(game)@.starpassed_to(new_imp),
{
    reveal(GameView::starpassed_to);
    if let Some(i) = find_seat(&game.seats, new_imp) {
        let was_poisoner = game.seats[i].true_character == Some(Character::Poisoner);
        game.seats[i].true_character = Some(Character::Imp);
        game.seats[i].believed_character = None;
        game.seats[i].is_drunk_outsider = false;
        assert(game@.seats =~= with_seat(
            old(game)@.seats,
            new_imp,
            turned_imp(old(game)@.seats[i as int]),
        ));
        // Poisoner who becomes Imp stops being Poisoner — active poison ends.
        if was_poisoner {
            on_poisoner_left_play(game);
        }
    }
    game.private_inboxes.push(new_imp, imp_notice());
    win_check(game);
}

/// The host picked the Minion that becomes the Imp: the old Imp dies, the Minion takes over.
pub fn complete_starpass(game: &mut Game, dead_imp: SeatId, minion: SeatId) -> (r: KillResult)
    ensures
        final(game)@ == old(game)@.killed_tonight(dead_imp).starpassed_to(minion),
        r == (KillResult::Starpass { dead_imp, new_imp: minion }),
{
    mark_dead(game, dead_imp);
    pass_imp_to(game, minion);
    KillResult::Starpass { dead_imp, new_imp: minion }
}

/// Apply the host's choice for an attack on the Mayor.
pub fn resolve_mayor_host_choice(game: &mut Game, mayor: SeatId, choice: MayorRedirectChoice) -> (r:
    KillResult)
    ensures
        (final(game)@, r) == old(game)@.mayor_decided(mayor, choice),
{
    match choice {
        MayorRedirectChoice::KillMayor => {
            die_from_demon(game, mayor);
            KillResult::Died(mayor)
        },
        MayorRedirectChoice::KillOther { target } => {
            if is_demon_killable(game, target) {
                die_from_demon(game, target);
                KillResult::Died(target)
            } else {
                KillResult::Survived
            }
        },
        MayorRedirectChoice::Nobody => KillResult::Survived,
    }
}

/// Apply death chain for a non-self demon target.
fn kill_chain(game: &mut Game, target: SeatId) -> (r: KillResult)
    ensures
        (final(game)@, r) == old(game)@.attacked(target),
{
    reveal(GameView::attacked);
    let i = match find_seat(&game.seats, target) {
        Some(i) => i,
        None => return KillResult::Sank,
    };
    if !game.seats[i].alive {
        return KillResult::Sank;
    }
    if is_monk_protected(game, target) {
        return KillResult::Survived;
    }
    if is_soldier_immune(game, target) {
        return KillResult::Survived;
    }
    let is_mayor = game.seats[i].true_character == Some(Character::Mayor)
        && !game.seats[i].ability_disabled();
    if is_mayor {
        return mayor_bounce(game, target);
    }
    die_from_demon(game, target);
    KillResult::Died(target)
}

/// Whom the attack on this Mayor may bounce to, in ascending order.
#[verifier::loop_isolation(false)]
fn bounce_candidate_ids(game: &Game, mayor: SeatId) -> (v: Vec<SeatId>)
    ensures
        v@ == game@.bounce_candidates(mayor),
{
    let ghost keep = |s: Seat| bounce_candidate(game@.seats, mayor, s);
    let mut ids: Vec<SeatId> = Vec::new();
    let mut i: usize = 0;
    while i < game.seats.len()
        invariant
            i <= game.seats.len(),
            ids@ == ids_where(game@.seats.take(i as int), keep),
        decreases game.seats.len() - i,
    {
        let s = &game.seats[i];
        // Bounce onto a *good* living player, never Demon/Minion, nor another active Mayor.
        let fits = match s.true_character {
            Some(c) => c.team() == Team::Good && !(c == Character::Mayor && !s.ability_disabled()),
            None => false,
        };
        proof {
            assert(game@.seats.take(i + 1).drop_last() =~= game@.seats.take(i as int));
        }
        if s.id != mayor && is_demon_killable(game, s.id) && fits {
            ids.push(s.id);
        }
        i += 1;
    }
    assert(game@.seats.take(i as int) =~= game@.seats);
    sort_ascending(&ids)
}

fn mayor_bounce(game: &mut Game, mayor: SeatId) -> (r: KillResult)
    ensures
        (final(game)@, r) == old(game)@.mayor_bounced(mayor),
{
    reveal(GameView::mayor_bounced);
    let candidates = bounce_candidate_ids(game, mayor);
    if candidates.len() == 0 {
        return KillResult::Survived;
    }
    let label = numbered("mayor_bounce:c", game.night_cursor as u64);
    let mut rng = game.rng.substream(label.as_str());
    let bounce = candidates[rng.pick(candidates.len())];
    die_from_demon(game, bounce);
    KillResult::Died(bounce)
}

/// Mark dead, track night death, maybe insert Ravenkeeper wake / SW conversion.
fn die_from_demon(game: &mut Game, seat: SeatId)
    ensures
        final(game)@ == old(game)@.demon_slew(seat),
{
    reveal(GameView::demon_slew);
    // RK wake follows the *player-facing* character so a Drunk-face-Ravenkeeper still wakes;
    // a disabled real RK also wakes (false info).
    let (faces_as_rk, is_poisoner, is_imp) = match find_seat(&game.seats, seat) {
        Some(i) => {
            let s = &game.seats[i];
            (
                s.visible_character() == Some(Character::Ravenkeeper),
                s.true_character == Some(Character::Poisoner),
                s.true_character == Some(Character::Imp),
            )
        },
        None => (false, false, false),
    };
    let alive_before = living_count(game);
    mark_dead(game, seat);
    if is_poisoner {
        on_poisoner_left_play(game);
    }
    if faces_as_rk {
        insert_ravenkeeper_wake(game, seat);
    }
    // Non-starpass Imp death: Scarlet Woman may convert (alive_before includes Imp).
    if is_imp {
        apply_demon_death(game, alive_before);
    }
    win_check(game);
}

fn mark_dead(game: &mut Game, seat: SeatId)
    ensures
        final(game)@ == old(game)@.killed_tonight(seat),
{
    if let Some(i) = find_seat(&game.seats, seat) {
        if !game.seats[i].alive {
            return;
        }
        game.seats[i].alive = false;
        // Ghost vote available remains true until a yes vote is cast (day).
    }
    if !holds_seat(&game.deaths_tonight, seat) {
        game.deaths_tonight.push(seat);
    }
}

/// Insert Ravenkeeper step immediately after the current night cursor step.
#[verifier::loop_isolation(false)]
fn insert_ravenkeeper_wake(game: &mut Game, seat: SeatId)
    ensures
        final(game)@ == old(game)@.raven_wake_inserted(seat),
{
    // Avoid duplicate if queue already has this RK wake.
    let mut i: usize = 0;
    while i < game.night_queue.len()
        invariant
            i <= game.night_queue.len(),
            game@ == old(game)@,
            forall|k: int|
                0 <= k < i ==> game@.night_queue[k] != (NightStep::Ravenkeeper { seat }),
        decreases game.night_queue.len() - i,
    {
        if game.night_queue[i] == (NightStep::Ravenkeeper { seat }) {
            return;
        }
        i += 1;
    }
    let at: usize = if game.night_cursor < game.night_queue.len() {
        game.night_cursor + 1
    } else {
        game.night_queue.len()
    };
    game.night_queue.insert(at, NightStep::Ravenkeeper { seat });
}

} // verus!
