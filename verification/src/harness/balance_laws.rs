//! What keeps models balanced: what they have played is counted, and seats go to those who have
//! had the least of them.

use crate::game::ability::info_laws::is_evil;
use crate::harness::balance::{
    bumped, count_in, entry_is_first, entry_of, good_shares, key_of, part_of, seat_read, stats_in,
    with_part, StatsView, TableView, Tally,
};
use crate::harness::matching::{cost_on, less, Cost};
use crate::harness::selection::{
    best_bid, better, candidates_but, evil_first, of_team, one_model, overlap, thin_side,
    two_models, BidView, UNIT,
};
use crate::json::JsonView;
use crate::rng::{draws_are_in_range, Substream};
use crate::roles::data::name_of;
use crate::roles::{team_of, Character, Team};
use vstd::prelude::*;

verus! {

/// The word for a character's side.
pub open spec fn side_word(c: Character) -> Seq<char> {
    if is_evil(Some(c)) { "Evil"@ } else { "Good"@ }
}

/// One more is one more, and of nothing else.
pub proof fn counting_is_by_name(t: Tally, key: Seq<char>, other: Seq<char>)
    requires
        count_in(t, key) < u32::MAX,
    ensures
        count_in(bumped(t, key), key) == count_in(t, key) + 1,
        other != key ==> count_in(bumped(t, key), other) == count_in(t, other),
{
    let after = bumped(t, key);
    entry_is_first(t, key);
    entry_is_first(after, key);
    entry_is_first(t, other);
    entry_is_first(after, other);
    match entry_of(t, key) {
        Some(i) => {
            let k = entry_of(after, key);
            assert(after[i].0 == key);
            if k->0 < i {
                assert(after[k->0] == t[k->0]);
            }
            if i < k->0 {
                assert(after[i].0 != key);
            }
            if other != key {
                if let Some(m) = entry_of(t, other) {
                    assert(after[m] == t[m]);
                    let n = entry_of(after, other)->0;
                    assert(after[n] == t[n]);
                } else if let Some(n) = entry_of(after, other) {
                    assert(after[n] == t[n]);
                }
            }
        },
        None => {
            assert(after[t.len() as int] == (key, 1u32));
            let k = entry_of(after, key)->0;
            if k < t.len() {
                assert(after[k] == t[k]);
            }
            if other != key {
                if let Some(m) = entry_of(t, other) {
                    assert(after[m] == t[m]);
                    let n = entry_of(after, other)->0;
                    if n < t.len() {
                        assert(after[n] == t[n]);
                    }
                } else if let Some(n) = entry_of(after, other) {
                    if n < t.len() {
                        assert(after[n] == t[n]);
                    }
                }
            }
        },
    }
}

/// A game played with a character counts once: as a game, for its side and for the character, and
/// for no other side or character.
pub proof fn parts_are_counted(s: StatsView, c: Character, word: Seq<char>)
    requires
        s.games < u32::MAX,
        count_in(s.team, side_word(c)) < u32::MAX,
        count_in(s.role, name_of(c)) < u32::MAX,
    ensures
        ({
            let after = s.played(part_of(c));
            &&& after.games == s.games + 1
            &&& count_in(after.team, side_word(c)) == count_in(s.team, side_word(c)) + 1
            &&& word != side_word(c) ==> count_in(after.team, word) == count_in(s.team, word)
            &&& count_in(after.role, name_of(c)) == count_in(s.role, name_of(c)) + 1
            &&& word != name_of(c) ==> count_in(after.role, word) == count_in(s.role, word)
        }),
{
    counting_is_by_name(s.team, side_word(c), word);
    counting_is_by_name(s.role, name_of(c), word);
}

/// What a character costs a model is how often it has had that side and that character before.
pub proof fn costs_count_the_past(s: StatsView, c: Character)
    ensures
        cost_on(s, c).team == count_in(s.team, side_word(c)),
        cost_on(s, c).role == count_in(s.role, name_of(c)),
{
}

/// The side decides first, then the kind, then the character; nothing is cheaper than itself.
pub proof fn sides_weigh_most(a: Cost, b: Cost)
    ensures
        a.team < b.team ==> less(a, b) && !less(b, a),
        a.team == b.team && a.role_type < b.role_type ==> less(a, b) && !less(b, a),
        a.team == b.team && a.role_type == b.role_type && a.role < b.role ==> less(a, b) && !less(
            b,
            a,
        ),
        !less(a, a),
{
}

/// Having played a part makes the same part dearer, so it is owed to others.
pub proof fn playing_makes_dearer(s: StatsView, c: Character)
    requires
        s.games < u32::MAX,
        count_in(s.team, side_word(c)) < u32::MAX,
        count_in(s.role, name_of(c)) < u32::MAX,
    ensures
        less(cost_on(s, c), cost_on(s.played(part_of(c)), c)),
{
    parts_are_counted(s, c, name_of(c));
}

/// The record of a model gains the game and no other model's record changes.
pub proof fn records_are_kept_apart(
    models: Seq<(Seq<char>, StatsView)>,
    key: Seq<char>,
    c: Character,
    other: Seq<char>,
)
    ensures
        stats_in(with_part(models, key, part_of(c)), key) == Some(
            match stats_in(models, key) {
                Some(s) => s.played(part_of(c)),
                None => StatsView::empty().played(part_of(c)),
            },
        ),
        other != key ==> stats_in(with_part(models, key, part_of(c)), other) == stats_in(
            models,
            other,
        ),
{
    let after = with_part(models, key, part_of(c));
    entry_is_first(models, key);
    entry_is_first(after, key);
    entry_is_first(models, other);
    entry_is_first(after, other);
    match entry_of(models, key) {
        Some(i) => {
            assert(after[i].0 == key);
            let k = entry_of(after, key)->0;
            if k < i {
                assert(after[k] == models[k]);
            }
            if other != key {
                if let Some(m) = entry_of(models, other) {
                    assert(after[m] == models[m]);
                    let n = entry_of(after, other)->0;
                    assert(after[n] == models[n]);
                } else if let Some(n) = entry_of(after, other) {
                    assert(after[n] == models[n]);
                }
            }
        },
        None => {
            assert(after[models.len() as int].0 == key);
            let k = entry_of(after, key)->0;
            if k < models.len() {
                assert(after[k] == models[k]);
            }
            if other != key {
                if let Some(m) = entry_of(models, other) {
                    assert(after[m] == models[m]);
                    let n = entry_of(after, other)->0;
                    if n < models.len() {
                        assert(after[n] == models[n]);
                    }
                } else if let Some(n) = entry_of(after, other) {
                    if n < models.len() {
                        assert(after[n] == models[n]);
                    }
                }
            }
        },
    }
}

/// A model keeps its own name on the default backend and is told apart by the backend on another.
pub proof fn keys_name_the_model(backend: Seq<char>, model: Seq<char>)
    requires
        model.len() > 0,
    ensures
        key_of(""@, model) == model,
        key_of("grok"@, model) == model,
        backend.len() > 0 && backend != "grok"@ ==> key_of(backend, model) == backend + ":"@
            + model,
        key_of(backend, seq![]).len() == 0,
{
    reveal_strlit("");
}

/// A model's share of a game is what it sat on either side, and it counts for a contrast only if
/// the two shares differ.
pub proof fn shares_are_what_was_seated(good: Tally, evil: Tally, gt: u64, et: u64, k: int)
    requires
        0 <= k < good_shares(good, evil, gt, et).len(),
    ensures
        ({
            let (name, g, e) = good_shares(good, evil, gt, et)[k];
            &&& good.contains((name, g))
            &&& e == count_in(evil, name)
            &&& g as int * et as int != e as int * gt as int
        }),
    decreases good.len(),
{
    if good.len() > 0 {
        let front = good.drop_last();
        let short = good_shares(front, evil, gt, et);
        let (name, g, e) = good_shares(good, evil, gt, et)[k];
        if k < short.len() {
            shares_are_what_was_seated(front, evil, gt, et, k);
            assert(good_shares(good, evil, gt, et)[k] == short[k]);
            let i = front.index_of((name, g));
            assert(good[i] == (name, g));
        } else {
            assert(good[good.len() - 1] == (name, g));
        }
    }
}

// ---------------------------------------------------------------------------
// Seating
// ---------------------------------------------------------------------------

/// A clearly less settled match-up wins, whatever has been played; where the match-ups are the
/// same the counts decide.
pub proof fn clear_match_ups_decide(a: BidView, b: BidView, total: int)
    requires
        total > 0,
    ensures
        a.matchup == b.matchup ==> better(a, b, total) == less(a.cost, b.cost),
        0 <= a.matchup < b.matchup && (b.matchup - a.matchup) * 1_000_000_000 > UNIT * total
            + b.matchup ==> better(a, b, total) && !better(b, a, total),
{
    assert(UNIT * total >= 0) by (nonlinear_arith)
        requires
            total > 0,
    ;
}

/// Whoever beats all the others gets the seat, in whatever order they bid.
pub proof fn the_best_bid_wins(order: Seq<usize>, bids: Seq<BidView>, total: int, w: usize)
    requires
        order.contains(w),
        forall|i: int|
            0 <= i < order.len() && (#[trigger] order[i]) != w ==> better(
                bids[w as int],
                bids[order[i] as int],
                total,
            ) && !better(bids[order[i] as int], bids[w as int], total),
        !better(bids[w as int], bids[w as int], total),
    ensures
        best_bid(order, bids, total) == w,
    decreases order.len(),
{
    let at = order.index_of(w);
    if order.len() > 1 {
        let front = order.drop_last();
        if front.contains(w) {
            assert forall|i: int| 0 <= i < front.len() && (#[trigger] front[i]) != w implies better(
                bids[w as int],
                bids[front[i] as int],
                total,
            ) && !better(bids[front[i] as int], bids[w as int], total) by {
                assert(order[i] == front[i]);
            }
            the_best_bid_wins(front, bids, total, w);
            assert(order[order.len() - 1] == order.last());
        } else {
            assert(order.last() == w) by {
                if at < front.len() {
                    assert(front[at] == w);
                }
            }
            bids_are_won_by_bidders(front, bids, total);
            let best = best_bid(front, bids, total);
            let i = front.index_of(best);
            assert(order[i] == best);
        }
    }
}

proof fn bids_are_won_by_bidders(order: Seq<usize>, bids: Seq<BidView>, total: int)
    requires
        order.len() > 0,
    ensures
        order.contains(best_bid(order, bids, total)),
    decreases order.len(),
{
    if order.len() > 1 {
        let front = order.drop_last();
        bids_are_won_by_bidders(front, bids, total);
        let best = best_bid(front, bids, total);
        assert(order[front.index_of(best)] == best);
        assert(order[order.len() - 1] == order.last());
    } else {
        assert(order[0] == best_bid(order, bids, total));
    }
}

/// The match-up is weighed seat by seat: one more opponent adds its covariance as often as it sits
/// opposite.
pub proof fn match_ups_add_up(row: Seq<i64>, against: Seq<nat>, x: i64, n: nat)
    requires
        row.len() == against.len(),
    ensures
        overlap(row.push(x), against.push(n)) == overlap(row, against) + x as int * n as int,
        overlap(seq![], seq![]) == 0,
{
    assert(row.push(x).drop_last() =~= row);
    assert(against.push(n).drop_last() =~= against);
}

proof fn teams_are_picked_out(order: Seq<usize>, chars: Seq<Character>, team: Team, x: usize)
    ensures
        of_team(order, chars, team).contains(x) <==> order.contains(x) && team_of(chars[x as int])
            == team,
        forall|i: int|
            0 <= i < of_team(order, chars, team).len() ==> team_of(
                chars[(#[trigger] of_team(order, chars, team)[i]) as int],
            ) == team,
    decreases order.len(),
{
    if order.len() > 0 {
        let front = order.drop_last();
        let short = of_team(front, chars, team);
        let all = of_team(order, chars, team);
        teams_are_picked_out(front, chars, team, x);
        assert(order[order.len() - 1] == order.last());
        if front.contains(x) {
            assert(order[front.index_of(x)] == x);
        }
        if order.contains(x) && !front.contains(x) {
            let k = order.index_of(x);
            if k < front.len() {
                assert(front[k] == x);
            }
        }
        if all.len() > short.len() {
            assert(all[short.len() as int] == order.last());
            if short.contains(x) {
                assert(all[short.index_of(x)] == x);
            }
            if all.contains(x) {
                let k = all.index_of(x);
                if k < short.len() {
                    assert(short[k] == x);
                }
            }
            assert forall|i: int| 0 <= i < all.len() implies team_of(
                chars[(#[trigger] all[i]) as int],
            ) == team by {
                if i < short.len() {
                    assert(all[i] == short[i]);
                }
            }
        }
    }
}

/// The evil seats are filled before the good ones, and every seat is filled.
pub proof fn evil_seats_go_first(order: Seq<usize>, chars: Seq<Character>, i: int, j: int, x: usize)
    requires
        0 <= i < j < evil_first(order, chars).len(),
    ensures
        !is_evil(Some(chars[evil_first(order, chars)[i] as int])) ==> !is_evil(
            Some(chars[evil_first(order, chars)[j] as int]),
        ),
        order.contains(x) ==> evil_first(order, chars).contains(x),
{
    let evil = of_team(order, chars, Team::Evil);
    let good = of_team(order, chars, Team::Good);
    let all = evil_first(order, chars);
    teams_are_picked_out(order, chars, Team::Evil, x);
    teams_are_picked_out(order, chars, Team::Good, x);
    if i < evil.len() {
        assert(all[i] == evil[i]);
    } else {
        assert(all[j] == good[j - evil.len()]);
    }
    if order.contains(x) {
        if evil.contains(x) {
            assert(all[evil.index_of(x)] == x);
        } else {
            assert(good.contains(x));
            assert(all[evil.len() + good.index_of(x)] == x);
        }
    }
}

proof fn the_others_are_others(n: nat, c: usize)
    requires
        n <= usize::MAX,
    ensures
        forall|i: int|
            0 <= i < candidates_but(n, c).len() ==> (#[trigger] candidates_but(n, c)[i]) != c
                && candidates_but(n, c)[i] < n,
        n >= 2 ==> candidates_but(n, c).len() >= 1,
        candidates_but(n, c).len() == if c < n { n - 1 } else { n as int },
    decreases n,
{
    if n > 0 {
        let front = candidates_but((n - 1) as nat, c);
        the_others_are_others((n - 1) as nat, c);
        let all = candidates_but(n, c);
        assert forall|i: int| 0 <= i < all.len() implies (#[trigger] all[i]) != c && all[i] < n by {
            if i < front.len() {
                assert(all[i] == front[i]);
            }
        }
    }
}

/// With two candidates or more no table of two seats or more is left to one model.
pub proof fn tables_have_two_models(
    out: Seq<usize>,
    chars: Seq<Character>,
    live: Seq<StatsView>,
    rng: Substream,
)
    requires
        2 <= live.len() <= usize::MAX,
        2 <= out.len() == chars.len() <= usize::MAX,
    ensures
        !one_model(two_models(out, chars, live, rng).0),
{
    if one_model(out) {
        let n = out.len();
        let all = Seq::new(n, |i: int| i as usize);
        let side = thin_side(chars, n);
        let good = of_team(all, chars, Team::Good);
        let evil = of_team(all, chars, Team::Evil);
        teams_are_picked_out(all, chars, Team::Good, 0);
        teams_are_picked_out(all, chars, Team::Evil, 0);
        assert(all[0] == 0usize);
        assert(all.contains(0usize));
        assert(good.len() > 0 || evil.len() > 0) by {
            if good.contains(0usize) {
                assert(good[good.index_of(0usize)] == 0usize);
            } else {
                assert(evil.contains(0usize));
                assert(evil[evil.index_of(0usize)] == 0usize);
            }
        }
        draws_are_in_range(rng, side.len());
        let (at, mid) = rng.choice(side.len());
        let seat = side[at];
        teams_are_picked_out(all, chars, Team::Good, seat);
        teams_are_picked_out(all, chars, Team::Evil, seat);
        assert(side.contains(seat));
        assert(all.contains(seat));
        let k = all.index_of(seat);
        assert(seat < n);
        let others = candidates_but(live.len(), out[0]);
        the_others_are_others(live.len(), out[0]);
        draws_are_in_range(mid, others.len());
        let (order, end) = mid.order(others.len());
        let asked = order.map_values(|k: usize| others[k as int]);
        let costs = crate::harness::selection::costs_for(asked, live, chars[seat as int]);
        crate::harness::matching::first_min_is_cheapest(costs);
        let b = crate::harness::matching::first_min(costs);
        let best = asked[b];
        assert(order[b] < others.len());
        assert(best == others[order[b] as int]);
        assert(best != out[0]);
        let after = two_models(out, chars, live, rng).0;
        assert(after == out.update(seat as int, best));
        let rest: int = if seat == 0 { 1 } else { 0 };
        assert(after[seat as int] == best);
        assert(after[rest] == out[rest]);
        assert(out[rest] == out[0]);
    }
}

/// A seat of a past game counts for the model that played it, with the side, the kind and the
/// character of its record, and for no other model.
pub proof fn past_seats_count_for_their_model(
    t: TableView,
    s: JsonView,
    backend: Seq<char>,
    model: Seq<char>,
    c: Character,
    other: Seq<char>,
)
    requires
        s.text_at("backend"@) == Some(backend),
        s.text_at("model"@) == Some(model),
        s.text_at("team"@) == part_of(c).team,
        s.text_at("character_type"@) == part_of(c).role_type,
        s.text_at("true_character"@) == Some(name_of(c)),
        key_of(backend, model).len() > 0,
        count_in(t.good, key_of(backend, model)) < u32::MAX,
        count_in(t.evil, key_of(backend, model)) < u32::MAX,
    ensures
        ({
            let key = key_of(backend, model);
            let after = seat_read(t, s);
            let seen = match stats_in(t.models, key) {
                Some(record) => record,
                None => StatsView::empty(),
            };
            &&& stats_in(after.models, key) == Some(seen.played(part_of(c)))
            &&& other != key ==> stats_in(after.models, other) == stats_in(t.models, other)
            &&& is_evil(Some(c)) ==> count_in(after.evil, key) == count_in(t.evil, key) + 1
                && after.good == t.good
            &&& !is_evil(Some(c)) ==> count_in(after.good, key) == count_in(t.good, key) + 1
                && after.evil == t.evil
        }),
{
    let key = key_of(backend, model);
    records_are_kept_apart(t.models, key, c, other);
    counting_is_by_name(t.good, key, other);
    counting_is_by_name(t.evil, key, other);
    reveal_strlit("Good");
    reveal_strlit("Evil");
    assert("Good"@[0] == 'G' && "Evil"@[0] == 'E');
}

} // verus!
