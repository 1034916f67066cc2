//! Matching models and characters: roles onto pinned models, and models onto pinned roles.

use crate::game::ids::SeatId;
use crate::game::setup::order_reaches_all;
use crate::game::state::RoleAssignment;
use crate::harness::balance::{count_in, models_view, stats_in, stats_of, ModelStats, StatsView};
use crate::rng::{is_order, Substream};
use crate::roles::data::name_of;
use crate::roles::{team_of, type_of, Character};
use crate::text::texts;
use crate::tools::rules_docs::{team_label, team_word, type_label, type_word};
use vstd::prelude::*;
use vstd::string::*;

verus! {

// ---------------------------------------------------------------------------
// Cost
// ---------------------------------------------------------------------------

/// How often a model has had a character's team, role type and role: giving them to the model
/// that has the fewest corrects the imbalance.
#[derive(Debug, Clone, Copy, PartialEq, Eq, Structural)]
pub struct Cost {
    pub team: u32,
    pub role_type: u32,
    pub role: u32,
}

/// Team first, then role type, then role.
pub open spec fn less(a: Cost, b: Cost) -> bool {
    a.team < b.team || (a.team == b.team && (a.role_type < b.role_type || (a.role_type
        == b.role_type && a.role < b.role)))
}

/// Team first, then role type, then role.
pub fn cost_less(a: Cost, b: Cost) -> (r: bool)
    ensures
        r == less(a, b),
{
    a.team < b.team || (a.team == b.team && (a.role_type < b.role_type || (a.role_type
        == b.role_type && a.role < b.role)))
}

/// What a character costs on a record.
pub open spec fn cost_on(s: StatsView, c: Character) -> Cost {
    Cost {
        team: count_in(s.team, team_word(team_of(c))),
        role_type: count_in(s.role_type, type_word(type_of(c))),
        role: count_in(s.role, name_of(c)),
    }
}

pub fn cost_of(s: &ModelStats, c: Character) -> (r: Cost)
    ensures
        r == cost_on(s@, c),
{
    Cost {
        team: s.team_n(team_label(c.team())),
        role_type: s.type_n(type_label(c.character_type())),
        role: s.role_n(c.display_name()),
    }
}

/// The position of the first cheapest.
pub open spec fn first_min(costs: Seq<Cost>) -> int
    decreases costs.len(),
{
    if costs.len() <= 1 {
        0
    } else {
        let best = first_min(costs.drop_last());
        if less(costs.last(), costs[best]) { costs.len() - 1 } else { best }
    }
}

/// The first cheapest is in the list, nothing is cheaper, and everything before it is dearer.
pub proof fn first_min_is_cheapest(costs: Seq<Cost>)
    requires
        costs.len() > 0,
    ensures
        0 <= first_min(costs) < costs.len(),
        forall|i: int| 0 <= i < costs.len() ==> !less(#[trigger] costs[i], costs[first_min(costs)]),
        forall|i: int|
            0 <= i < first_min(costs) ==> less(costs[first_min(costs)], #[trigger] costs[i]),
    decreases costs.len(),
{
    if costs.len() > 1 {
        let front = costs.drop_last();
        first_min_is_cheapest(front);
        assert forall|i: int| 0 <= i < front.len() implies front[i] == #[trigger] costs[i] by {}
        let best = first_min(front);
        assert(front[best] == costs[best]);
        assert forall|i: int| 0 <= i < costs.len() implies !less(
            #[trigger] costs[i],
            costs[first_min(costs)],
        ) by {
            if i < front.len() {
                assert(!less(front[i], front[best]));
            }
        }
        assert forall|i: int| 0 <= i < first_min(costs) implies less(
            costs[first_min(costs)],
            #[trigger] costs[i],
        ) by {
            assert(!less(front[i], front[best]));
            if i < best {
                assert(less(front[best], front[i]));
            }
        }
    }
}

#[verifier::loop_isolation(false)]
pub fn find_min(costs: &Vec<Cost>) -> (best: usize)
    requires
        costs@.len() > 0,
    ensures
        best == first_min(costs@),
        best < costs@.len(),
{
    let mut best: usize = 0;
    let mut i: usize = 1;
    while i < costs.len()
        invariant
            1 <= i <= costs@.len(),
            best < i,
            best == first_min(costs@.take(i as int)),
        decreases costs@.len() - i,
    {
        assert(costs@.take(i + 1).drop_last() =~= costs@.take(i as int));
        if cost_less(costs[i], costs[best]) {
            best = i;
        }
        i += 1;
    }
    assert(costs@.take(i as int) =~= costs@);
    best
}

// ---------------------------------------------------------------------------
// Roles onto pinned models
// ---------------------------------------------------------------------------

/// What is matched: the models, the characters, and the records.
pub struct Deal {
    pub models: Seq<Seq<char>>,
    pub chars: Seq<Character>,
    pub stats: Seq<(Seq<char>, StatsView)>,
}

impl Deal {
    /// The model has a record.
    pub open spec fn knows(self, m: usize) -> bool {
        stats_in(self.stats, self.models[m as int]) is Some
    }

    pub open spec fn cost(self, m: usize, c: usize) -> Cost {
        cost_on(stats_in(self.stats, self.models[m as int])->0, self.chars[c as int])
    }

    /// What a character costs each of the known models.
    pub open spec fn row(self, known: Seq<usize>, c: usize) -> Seq<Cost> {
        known.map_values(|m: usize| self.cost(m, c))
    }

    /// What each remaining character costs at its cheapest.
    pub open spec fn cheapest(self, known: Seq<usize>, remaining: Seq<usize>) -> Seq<Cost> {
        remaining.map_values(|c: usize| self.row(known, c)[first_min(self.row(known, c))])
    }

    /// The cheapest pair of all: the position of its character and that of its model.
    pub open spec fn best_pair(self, known: Seq<usize>, remaining: Seq<usize>) -> (int, int) {
        let c = first_min(self.cheapest(known, remaining));
        (c, first_min(self.row(known, remaining[c])))
    }

    /// The models with a record, in order.
    pub open spec fn known_of(self, order: Seq<usize>) -> Seq<usize>
        decreases order.len(),
    {
        if order.len() == 0 {
            seq![]
        } else {
            let front = self.known_of(order.drop_last());
            if self.knows(order.last()) { front.push(order.last()) } else { front }
        }
    }

    /// The models without one, in order.
    pub open spec fn fresh_of(self, order: Seq<usize>) -> Seq<usize>
        decreases order.len(),
    {
        if order.len() == 0 {
            seq![]
        } else {
            let front = self.fresh_of(order.drop_last());
            if self.knows(order.last()) { front } else { front.push(order.last()) }
        }
    }

    /// Pairs off the cheapest pair again and again while known models and characters remain; what
    /// is left goes to the fresh models in order.
    pub open spec fn matched(
        self,
        assigned: Seq<Option<usize>>,
        known: Seq<usize>,
        remaining: Seq<usize>,
        fresh: Seq<usize>,
    ) -> Seq<Option<usize>>
        decreases known.len(),
    {
        if known.len() == 0 || remaining.len() == 0 {
            filled(assigned, fresh, remaining)
        } else {
            let (c, m) = self.best_pair(known, remaining);
            if 0 <= c < remaining.len() && 0 <= m < known.len() {
                self.matched(
                    assigned.update(known[m] as int, Some(remaining[c])),
                    known.remove(m),
                    remaining.remove(c),
                    fresh,
                )
            } else {
                assigned
            }
        }
    }
}

/// Each of the fresh gets one of the remaining, in order.
pub open spec fn filled(
    assigned: Seq<Option<usize>>,
    fresh: Seq<usize>,
    remaining: Seq<usize>,
) -> Seq<
    Option<usize>,
>
    decreases fresh.len(),
{
    if fresh.len() == 0 || remaining.len() == 0 {
        assigned
    } else {
        filled(
            assigned.update(fresh[0] as int, Some(remaining[0])),
            fresh.drop_first(),
            remaining.drop_first(),
        )
    }
}

/// Nobody is assigned anything yet.
pub open spec fn unassigned(n: nat) -> Seq<Option<usize>> {
    Seq::new(n, |i: int| None::<usize>)
}

/// What is known while characters are handed out: whoever has none is still to come, and no
/// character is handed out twice.
spec fn deals_on(
    assigned: Seq<Option<usize>>,
    known: Seq<usize>,
    remaining: Seq<usize>,
    fresh: Seq<usize>,
) -> bool {
    let n = assigned.len();
    &&& n <= usize::MAX
    &&& remaining.len() == known.len() + fresh.len()
    &&& remaining.no_duplicates()
    &&& forall|i: int| 0 <= i < remaining.len() ==> (#[trigger] remaining[i]) < n
    &&& forall|i: int| 0 <= i < known.len() ==> (#[trigger] known[i]) < n
    &&& forall|i: int| 0 <= i < fresh.len() ==> (#[trigger] fresh[i]) < n
    &&& forall|m: int|
        0 <= m < n && (#[trigger] assigned[m]) is None ==> known.contains(m as usize)
            || fresh.contains(m as usize)
    &&& forall|m: int|
        0 <= m < n ==> ((#[trigger] assigned[m]) matches Some(c) ==> c < n && !remaining.contains(c))
    &&& forall|a: int, b: int|
        0 <= a < n && 0 <= b < n && a != b && (#[trigger] assigned[a]) is Some && (
        #[trigger] assigned[b]) is Some ==> assigned[a] != assigned[b]
}

/// Handing a remaining character to one that is still to come keeps the deal in order.
proof fn dealing_keeps_order(
    assigned: Seq<Option<usize>>,
    known: Seq<usize>,
    remaining: Seq<usize>,
    fresh: Seq<usize>,
    m: int,
    c: int,
    from_known: bool,
)
    requires
        deals_on(assigned, known, remaining, fresh),
        0 <= c < remaining.len(),
        from_known ==> 0 <= m < known.len(),
        !from_known ==> 0 <= m < fresh.len(),
    ensures
        ({
            let who = if from_known { known[m] } else { fresh[m] };
            deals_on(
                assigned.update(who as int, Some(remaining[c])),
                if from_known { known.remove(m) } else { known },
                remaining.remove(c),
                if from_known { fresh } else { fresh.remove(m) },
            )
        }),
{
    let who = if from_known { known[m] } else { fresh[m] };
    let a2 = assigned.update(who as int, Some(remaining[c]));
    let k2 = if from_known { known.remove(m) } else { known };
    let f2 = if from_known { fresh } else { fresh.remove(m) };
    let r2 = remaining.remove(c);
    let n = assigned.len();
    assert forall|i: int| 0 <= i < r2.len() implies (#[trigger] r2[i]) < n by {
        assert(r2[i] == remaining[if i < c { i } else { i + 1 }]);
    }
    assert forall|i: int, j: int| 0 <= i < r2.len() && 0 <= j < r2.len() && i != j implies r2[i]
        != r2[j] by {
        assert(r2[i] == remaining[if i < c { i } else { i + 1 }]);
        assert(r2[j] == remaining[if j < c { j } else { j + 1 }]);
    }
    assert forall|i: int| 0 <= i < k2.len() implies (#[trigger] k2[i]) < n by {
        if from_known {
            assert(k2[i] == known[if i < m { i } else { i + 1 }]);
        }
    }
    assert forall|i: int| 0 <= i < f2.len() implies (#[trigger] f2[i]) < n by {
        if !from_known {
            assert(f2[i] == fresh[if i < m { i } else { i + 1 }]);
        }
    }
    assert forall|x: int| 0 <= x < n && (#[trigger] a2[x]) is None implies k2.contains(x as usize)
        || f2.contains(x as usize) by {
        assert(assigned[x] is None);
        assert(x != who);
        if known.contains(x as usize) {
            let i = known.index_of(x as usize);
            if from_known {
                assert(i != m);
                assert(k2[if i < m { i } else { i - 1 }] == x);
            }
        } else {
            let i = fresh.index_of(x as usize);
            if !from_known {
                assert(i != m);
                assert(f2[if i < m { i } else { i - 1 }] == x);
            }
        }
    }
    assert forall|x: int| 0 <= x < n implies ((#[trigger] a2[x]) matches Some(y) ==> y < n
        && !r2.contains(y)) by {
        if a2[x] is Some {
            let y = a2[x]->0;
            if r2.contains(y) {
                let i = r2.index_of(y);
                let j = if i < c { i } else { i + 1 };
                assert(remaining[j] == y);
                if x != who {
                    assert(assigned[x] == Some(y));
                    assert(remaining.contains(y));
                }
            }
            if x != who {
                assert(assigned[x] == Some(y));
            }
        }
    }
    assert forall|a: int, b: int|
        0 <= a < n && 0 <= b < n && a != b && (#[trigger] a2[a]) is Some && (
        #[trigger] a2[b]) is Some implies a2[a] != a2[b] by {
        assert(remaining.contains(remaining[c]));
        if a == who {
            assert(assigned[b] == a2[b]);
        } else if b == who {
            assert(assigned[a] == a2[a]);
        } else {
            assert(assigned[a] == a2[a]);
            assert(assigned[b] == a2[b]);
        }
    }
}

/// The results of the options.
pub open spec fn values_of(assigned: Seq<Option<usize>>) -> Seq<usize> {
    assigned.map_values(|a: Option<usize>| a->0)
}

/// Which character each model gets: greedy min-cost matching on the lexicographic cost (team →
/// role type → specific role). Only models with a record drive it; the others take the leftovers.
pub open spec fn model_match(
    d: Deal,
    char_order: Seq<usize>,
    model_order: Seq<usize>,
) -> Seq<usize> {
    values_of(
        d.matched(
            unassigned(d.models.len()),
            d.known_of(model_order),
            char_order,
            d.fresh_of(model_order),
        ),
    )
}

proof fn parts_cover_the_order(d: Deal, order: Seq<usize>)
    ensures
        d.known_of(order).len() + d.fresh_of(order).len() == order.len(),
        forall|i: int|
            0 <= i < d.known_of(order).len() ==> order.contains(#[trigger] d.known_of(order)[i]),
        forall|i: int|
            0 <= i < d.fresh_of(order).len() ==> order.contains(#[trigger] d.fresh_of(order)[i]),
        forall|x: usize| #[trigger]
            order.contains(x) ==> d.known_of(order).contains(x) || d.fresh_of(order).contains(x),
        forall|i: int|
            0 <= i < d.known_of(order).len() ==> d.knows(#[trigger] d.known_of(order)[i]),
    decreases order.len(),
{
    if order.len() > 0 {
        let front = order.drop_last();
        parts_cover_the_order(d, front);
        let (k, f) = (d.known_of(front), d.fresh_of(front));
        let (k2, f2) = (d.known_of(order), d.fresh_of(order));
        assert forall|i: int| 0 <= i < k2.len() implies order.contains(#[trigger] k2[i]) && d.knows(
            k2[i],
        ) by {
            if i < k.len() {
                assert(k2[i] == k[i]);
                assert(front.contains(k[i]));
                let j = front.index_of(k[i]);
                assert(order[j] == k[i]);
            } else {
                assert(order[order.len() - 1] == k2[i]);
            }
        }
        assert forall|i: int| 0 <= i < f2.len() implies order.contains(#[trigger] f2[i]) by {
            if i < f.len() {
                assert(f2[i] == f[i]);
                assert(front.contains(f[i]));
                let j = front.index_of(f[i]);
                assert(order[j] == f[i]);
            } else {
                assert(order[order.len() - 1] == f2[i]);
            }
        }
        assert forall|x: usize| #[trigger] order.contains(x) implies k2.contains(x) || f2.contains(
            x,
        ) by {
            if front.contains(x) {
                if k.contains(x) {
                    assert(k2[k.index_of(x)] == x);
                } else {
                    assert(f2[f.index_of(x)] == x);
                }
            } else {
                let j = order.index_of(x);
                assert(j == order.len() - 1) by {
                    if j < front.len() {
                        assert(front[j] == x);
                    }
                }
                if d.knows(x) {
                    assert(k2.last() == x);
                } else {
                    assert(f2.last() == x);
                }
            }
        }
    }
}

/// The record of a known model.
fn record_of<'a>(stats: &'a Vec<(String, ModelStats)>, models: &Vec<String>, m: usize) -> (s:
    &'a ModelStats)
    requires
        m < models@.len(),
        stats_in(models_view(stats@), models@[m as int]@) is Some,
    ensures
        Some(s@) == stats_in(models_view(stats@), models@[m as int]@),
{
    match stats_of(stats, models[m].as_str()) {
        Some(s) => s,
        None => {
            assert(false);
            &stats[0].1
        },
    }
}

/// What a character costs each of the known models.
fn cost_row(
    models: &Vec<String>,
    chars: &Vec<Character>,
    stats: &Vec<(String, ModelStats)>,
    known: &Vec<usize>,
    c: usize,
) -> (row: Vec<Cost>)
    requires
        c < chars@.len(),
        forall|i: int|
            0 <= i < known@.len() ==> (#[trigger] known@[i]) < models@.len() && stats_in(
                models_view(stats@),
                models@[known@[i] as int]@,
            ) is Some,
    ensures
        row@ == (Deal {
            models: texts(models@),
            chars: chars@,
            stats: models_view(stats@),
        }).row(known@, c),
{
    let ghost d = Deal { models: texts(models@), chars: chars@, stats: models_view(stats@) };
    let mut row: Vec<Cost> = Vec::new();
    let mut i: usize = 0;
    while i < known.len()
        invariant
            i <= known@.len(),
            c < chars@.len(),
            d == (Deal { models: texts(models@), chars: chars@, stats: models_view(stats@) }),
            forall|i: int|
                0 <= i < known@.len() ==> (#[trigger] known@[i]) < models@.len() && stats_in(
                    models_view(stats@),
                    models@[known@[i] as int]@,
                ) is Some,
            row@.len() == i,
            forall|k: int| 0 <= k < i ==> (#[trigger] row@[k]) == d.cost(known@[k], c),
        decreases known@.len() - i,
    {
        let m = known[i];
        assert(d.models[m as int] == models@[m as int]@);
        row.push(cost_of(record_of(stats, models, m), chars[c]));
        i += 1;
    }
    assert(row@ =~= d.row(known@, c));
    row
}

/// Greedy min-cost matching between `models` and `chars` on the shared lexicographic
/// cost (team → role type → specific role). Returns `out[i]` = the char index matched
/// to model `i`. The two orders break ties: the first cheapest pair is taken.
#[verifier::loop_isolation(false)]
pub fn match_models_to_chars(
    models: &Vec<String>,
    chars: &Vec<Character>,
    stats: &Vec<(String, ModelStats)>,
    char_order: Vec<usize>,
    model_order: &Vec<usize>,
) -> (out: Vec<usize>)
    requires
        models@.len() == chars@.len(),
        is_order(char_order@, chars@.len()),
        is_order(model_order@, chars@.len()),
    ensures
        out@ == model_match(
            Deal { models: texts(models@), chars: chars@, stats: models_view(stats@) },
            char_order@,
            model_order@,
        ),
        is_order(out@, chars@.len()),
{
    let n = models.len();
    let ghost d = Deal { models: texts(models@), chars: chars@, stats: models_view(stats@) };
    let mut known: Vec<usize> = Vec::new();
    let mut fresh: Vec<usize> = Vec::new();
    let mut i: usize = 0;
    while i < model_order.len()
        invariant
            i <= model_order@.len(),
            known@ == d.known_of(model_order@.take(i as int)),
            fresh@ == d.fresh_of(model_order@.take(i as int)),
        decreases model_order@.len() - i,
    {
        assert(model_order@.take(i + 1).drop_last() =~= model_order@.take(i as int));
        let m = model_order[i];
        assert(model_order@[i as int] < n);
        assert(d.models[m as int] == models@[m as int]@);
        if stats_of(stats, models[m].as_str()).is_some() {
            known.push(m);
        } else {
            fresh.push(m);
        }
        i += 1;
    }
    assert(model_order@.take(i as int) =~= model_order@);
    let mut assign: Vec<Option<usize>> = Vec::new();
    while assign.len() < n
        invariant
            assign@.len() <= n,
            forall|k: int| 0 <= k < assign@.len() ==> (#[trigger] assign@[k]) is None,
        decreases n - assign@.len(),
    {
        assign.push(None);
    }
    assert(assign@ =~= unassigned(n as nat));
    let mut remaining = char_order;
    let ghost wanted = d.matched(unassigned(n as nat), known@, remaining@, fresh@);
    proof {
        parts_cover_the_order(d, model_order@);
        assert forall|m: int| 0 <= m < n && (#[trigger] assign@[m]) is None implies known@.contains(
            m as usize,
        ) || fresh@.contains(m as usize) by {
            order_reaches_all(model_order@, n as nat, m);
            assert(model_order@.contains(m as usize));
        }
        assert forall|k: int| 0 <= k < known@.len() implies (#[trigger] known@[k]) < n by {
            assert(model_order@.contains(known@[k]));
        }
        assert forall|k: int| 0 <= k < fresh@.len() implies (#[trigger] fresh@[k]) < n by {
            assert(model_order@.contains(fresh@[k]));
        }
        assert(deals_on(assign@, known@, remaining@, fresh@));
    }
    while known.len() > 0 && remaining.len() > 0
        invariant
            assign@.len() == n,
            deals_on(assign@, known@, remaining@, fresh@),
            forall|k: int| 0 <= k < known@.len() ==> d.knows(#[trigger] known@[k]),
            d.matched(assign@, known@, remaining@, fresh@) == wanted,
        decreases known@.len(),
    {
        // The cheapest pair of a remaining character and a known model.
        let mut cheapest: Vec<Cost> = Vec::new();
        let mut at: Vec<usize> = Vec::new();
        let mut c: usize = 0;
        while c < remaining.len()
            invariant
                c <= remaining@.len(),
                cheapest@.len() == c,
                at@.len() == c,
                forall|k: int|
                    0 <= k < c ==> (#[trigger] at@[k]) == first_min(d.row(known@, remaining@[k]))
                        && at@[k] < known@.len(),
                forall|k: int|
                    0 <= k < c ==> (#[trigger] cheapest@[k]) == d.row(known@, remaining@[k])[first_min(
                        d.row(known@, remaining@[k]),
                    )],
            decreases remaining@.len() - c,
        {
            assert forall|k: int| 0 <= k < known@.len() implies (#[trigger] known@[k])
                < models@.len() && stats_in(
                models_view(stats@),
                models@[known@[k] as int]@,
            ) is Some by {
                assert(d.knows(known@[k]));
                assert(d.models[known@[k] as int] == models@[known@[k] as int]@);
            }
            let row = cost_row(models, chars, stats, &known, remaining[c]);
            let m = find_min(&row);
            cheapest.push(row[m]);
            at.push(m);
            c += 1;
        }
        assert(cheapest@ =~= d.cheapest(known@, remaining@));
        let cp = find_min(&cheapest);
        let kp = at[cp];
        proof {
            assert((cp as int, kp as int) == d.best_pair(known@, remaining@));
            dealing_keeps_order(assign@, known@, remaining@, fresh@, kp as int, cp as int, true);
        }
        let ghost known_before = known@;
        let ci = remaining.remove(cp);
        let mi = known.remove(kp);
        assign.set(mi, Some(ci));
        assert forall|k: int| 0 <= k < known@.len() implies d.knows(#[trigger] known@[k]) by {
            assert(known@[k] == known_before[if k < kp { k } else { k + 1 }]);
        }
    }
    // The greedy consumed exactly one char per known model, so the leftovers line up
    // one-to-one with the no-history models.
    assert(known@.len() == 0);
    assert(filled(assign@, fresh@, remaining@) == wanted);
    let mut f: usize = 0;
    assert(fresh@.skip(0) =~= fresh@);
    assert(remaining@.skip(0) =~= remaining@);
    while f < fresh.len()
        invariant
            f <= fresh@.len(),
            assign@.len() == n,
            deals_on(assign@, known@, remaining@.skip(f as int), fresh@.skip(f as int)),
            filled(assign@, fresh@.skip(f as int), remaining@.skip(f as int)) == wanted,
        decreases fresh@.len() - f,
    {
        proof {
            dealing_keeps_order(
                assign@,
                known@,
                remaining@.skip(f as int),
                fresh@.skip(f as int),
                0,
                0,
                false,
            );
            assert(fresh@.skip(f as int).drop_first() =~= fresh@.skip(f + 1));
            assert(remaining@.skip(f as int).drop_first() =~= remaining@.skip(f + 1));
            assert(fresh@.skip(f as int).remove(0) =~= fresh@.skip(f + 1));
            assert(remaining@.skip(f as int).remove(0) =~= remaining@.skip(f + 1));
        }
        assign.set(fresh[f], Some(remaining[f]));
        f += 1;
    }
    assert(fresh@.skip(f as int).len() == 0);
    assert(assign@ == wanted);
    let mut out: Vec<usize> = Vec::new();
    let mut k: usize = 0;
    while k < n
        invariant
            k <= n,
            out@.len() == k,
            forall|j: int| 0 <= j < k ==> (#[trigger] out@[j]) == assign@[j]->0,
        decreases n - k,
    {
        let ci = match assign[k] {
            Some(ci) => ci,
            None => 0,
        };
        assert(assign@[k as int] is Some) by {
            if assign@[k as int] is None {
                assert(known@.contains(k as usize) || fresh@.skip(f as int).contains(k as usize));
            }
        }
        out.push(ci);
        k += 1;
    }
    proof {
        assert(out@ =~= values_of(wanted));
        assert forall|j: int| 0 <= j < n implies (#[trigger] assign@[j]) is Some by {
            if assign@[j] is None {
                assert(known@.contains(j as usize) || fresh@.skip(f as int).contains(j as usize));
            }
        }
        assert forall|j: int| 0 <= j < n implies (#[trigger] out@[j]) < n by {
            assert(assign@[j] is Some);
        }
        assert forall|a: int, b: int| 0 <= a < n && 0 <= b < n && a != b implies out@[a] != out@[b] by {
            assert(assign@[a] is Some && assign@[b] is Some);
        }
    }
    out
}

/// The bag dealt to the seats in this pick.
pub open spec fn dealt_bag(
    seats: Seq<SeatId>,
    bag: Seq<(Character, Option<Character>)>,
    pick: Seq<usize>,
) -> Seq<RoleAssignment> {
    Seq::new(
        seats.len(),
        |i: int|
            RoleAssignment {
                seat: seats[i],
                true_character: bag[pick[i] as int].0,
                believed_character: bag[pick[i] as int].1,
            },
    )
}

/// The characters of a bag.
pub open spec fn bag_chars(bag: Seq<(Character, Option<Character>)>) -> Seq<Character> {
    bag.map_values(|e: (Character, Option<Character>)| e.0)
}

/// The balanced deal with this stream of draws, and the stream after it.
pub open spec fn balanced(
    seats: Seq<SeatId>,
    seat_models: Seq<Seq<char>>,
    bag: Seq<(Character, Option<Character>)>,
    stats: Seq<(Seq<char>, StatsView)>,
    rng: Substream,
) -> (Seq<RoleAssignment>, Substream) {
    let d = Deal { models: seat_models, chars: bag_chars(bag), stats };
    let (char_order, mid) = rng.order(bag.len());
    let (model_order, end) = mid.order(bag.len());
    (dealt_bag(seats, bag, model_match(d, char_order, model_order)), end)
}

/// Reassign a fixed bag of characters to the given player seats so each model's
/// record stays balanced (team → role type → role, lexicographically). The models are
/// PINNED to their seats and the roles move — this is what `r` (reroll roles) does.
/// The bag (`true_character`, `believed_character` pairs — the latter carries a Drunk's
/// Townsfolk face) is preserved exactly; only *which seat* gets each entry changes,
/// so the result is always a valid setup for the same composition.
///
/// `seat_models[i]` is the model at `seats[i]`.
pub fn balanced_assignment(
    seats: &Vec<SeatId>,
    seat_models: &Vec<String>,
    bag: &Vec<(Character, Option<Character>)>,
    stats: &Vec<(String, ModelStats)>,
    rng: &mut Substream,
) -> (v: Vec<RoleAssignment>)
    requires
        seats@.len() == bag@.len(),
        seats@.len() == seat_models@.len(),
    ensures
        (v@, *final(rng)) == balanced(
            seats@,
            texts(seat_models@),
            bag@,
            models_view(stats@),
            *old(rng),
        ),
        exists|pick: Seq<usize>| #[trigger]
            is_order(pick, bag@.len()) && v@ == dealt_bag(seats@, bag@, pick),
{
    let n = bag.len();
    let mut chars: Vec<Character> = Vec::new();
    let mut i: usize = 0;
    while i < n
        invariant
            i <= n,
            n == bag@.len(),
            chars@.len() == i,
            forall|k: int| 0 <= k < i ==> (#[trigger] chars@[k]) == bag@[k].0,
        decreases n - i,
    {
        chars.push(bag[i].0);
        i += 1;
    }
    assert(chars@ =~= bag_chars(bag@));
    let char_order = rng.shuffled(n);
    let model_order = rng.shuffled(n);
    // Models are indexed by seat, so pick[i] is the char for seat i.
    let pick = match_models_to_chars(seat_models, &chars, stats, char_order, &model_order);
    let mut v: Vec<RoleAssignment> = Vec::new();
    let mut k: usize = 0;
    while k < n
        invariant
            k <= n,
            n == bag@.len(),
            seats@.len() == n,
            is_order(pick@, n as nat),
            v@.len() == k,
            forall|j: int|
                0 <= j < k ==> (#[trigger] v@[j]) == dealt_bag(seats@, bag@, pick@)[j],
        decreases n - k,
    {
        let p = pick[k];
        assert(pick@[k as int] < n);
        v.push(
            RoleAssignment {
                seat: seats[k],
                true_character: bag[p].0,
                believed_character: bag[p].1,
            },
        );
        k += 1;
    }
    assert(v@ =~= dealt_bag(seats@, bag@, pick@));
    v
}

// ---------------------------------------------------------------------------
// Laws
// ---------------------------------------------------------------------------

/// The pair that is dealt next is the cheapest of all: no known model would get any remaining
/// character at less.
pub proof fn best_pairs_are_cheapest(d: Deal, known: Seq<usize>, remaining: Seq<usize>)
    requires
        known.len() > 0,
        remaining.len() > 0,
    ensures
        ({
            let (c, m) = d.best_pair(known, remaining);
            &&& 0 <= c < remaining.len() && 0 <= m < known.len()
            &&& forall|i: int, j: int|
                0 <= i < remaining.len() && 0 <= j < known.len() ==> !less(
                    #[trigger] d.cost(known[j], remaining[i]),
                    d.cost(known[m], remaining[c]),
                )
        }),
{
    let best = d.cheapest(known, remaining);
    first_min_is_cheapest(best);
    let (c, m) = d.best_pair(known, remaining);
    let row = d.row(known, remaining[c]);
    first_min_is_cheapest(row);
    assert(best[c] == row[m]);
    assert forall|i: int, j: int| 0 <= i < remaining.len() && 0 <= j < known.len() implies !less(
        #[trigger] d.cost(known[j], remaining[i]),
        d.cost(known[m], remaining[c]),
    ) by {
        let other = d.row(known, remaining[i]);
        first_min_is_cheapest(other);
        assert(other[j] == d.cost(known[j], remaining[i]));
        assert(!less(other[j], other[first_min(other)]));
        assert(best[i] == other[first_min(other)]);
        assert(!less(best[i], best[c]));
    }
}

proof fn filling_goes_in_order(
    assigned: Seq<Option<usize>>,
    fresh: Seq<usize>,
    remaining: Seq<usize>,
    i: int,
)
    requires
        fresh.len() <= remaining.len(),
        fresh.no_duplicates(),
        forall|k: int| 0 <= k < fresh.len() ==> (#[trigger] fresh[k]) < assigned.len(),
    ensures
        filled(assigned, fresh, remaining).len() == assigned.len(),
        0 <= i < fresh.len() ==> filled(assigned, fresh, remaining)[fresh[i] as int] == Some(
            remaining[i],
        ),
        0 <= i < assigned.len() && !fresh.contains(i as usize) ==> filled(
            assigned,
            fresh,
            remaining,
        )[i] == assigned[i],
    decreases fresh.len(),
{
    if fresh.len() > 0 {
        let next = assigned.update(fresh[0] as int, Some(remaining[0]));
        let later = fresh.drop_first();
        let left = remaining.drop_first();
        assert(later.no_duplicates());
        assert forall|k: int| 0 <= k < later.len() implies (#[trigger] later[k]) < next.len() by {
            assert(later[k] == fresh[k + 1]);
        }
        filling_goes_in_order(next, later, left, i - 1);
        filling_goes_in_order(next, later, left, i);
        filling_goes_in_order(next, later, left, fresh[0] as int);
        assert(!later.contains(fresh[0])) by {
            if later.contains(fresh[0]) {
                let k = later.index_of(fresh[0]);
                assert(later[k] == fresh[k + 1]);
            }
        }
        if 0 < i < fresh.len() {
            assert(later[i - 1] == fresh[i]);
            assert(left[i - 1] == remaining[i]);
        }
        if 0 <= i < assigned.len() && !fresh.contains(i as usize) {
            assert(fresh.contains(fresh[0]));
            assert(!later.contains(i as usize)) by {
                if later.contains(i as usize) {
                    let k = later.index_of(i as usize);
                    assert(fresh[k + 1] == i as usize);
                }
            }
        }
    }
}

proof fn without_records_all_are_fresh(d: Deal, order: Seq<usize>)
    requires
        forall|i: int| 0 <= i < order.len() ==> !d.knows(#[trigger] order[i]),
    ensures
        d.known_of(order).len() == 0,
        d.fresh_of(order) == order,
    decreases order.len(),
{
    if order.len() > 0 {
        let front = order.drop_last();
        assert forall|i: int| 0 <= i < front.len() implies !d.knows(#[trigger] front[i]) by {
            assert(front[i] == order[i]);
        }
        without_records_all_are_fresh(d, front);
        assert(!d.knows(order[order.len() - 1]));
        assert(front.push(order.last()) =~= order);
    }
}

/// Where no model has a record the two shuffles alone decide: the models take the characters in
/// the drawn orders.
pub proof fn tables_without_records_are_random(
    d: Deal,
    char_order: Seq<usize>,
    model_order: Seq<usize>,
    i: int,
)
    requires
        d.models.len() == d.chars.len(),
        is_order(char_order, d.chars.len()),
        is_order(model_order, d.models.len()),
        forall|m: int| 0 <= m < d.models.len() ==> stats_in(d.stats, #[trigger] d.models[m]) is None,
        0 <= i < d.models.len(),
    ensures
        model_match(d, char_order, model_order)[model_order[i] as int] == char_order[i],
{
    assert forall|k: int| 0 <= k < model_order.len() implies !d.knows(
        #[trigger] model_order[k],
    ) by {
        assert(stats_in(d.stats, d.models[model_order[k] as int]) is None);
    }
    without_records_all_are_fresh(d, model_order);
    filling_goes_in_order(unassigned(d.models.len()), model_order, char_order, i);
    assert(model_order[i] < d.models.len());
}

} // verus!
