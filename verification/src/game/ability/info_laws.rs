//! What night information tells: the truth to a role that works, something else to one that does
//! not.

use crate::comms::PrivateMessageView;
use crate::error::GameError;
use crate::game::ability::info::{around, holders_of_type, lies_up_to, next_living, true_lines};
use crate::game::ids::SeatId;
use crate::game::night::NightActionPayload;
use crate::game::phase::NightStep;
use crate::game::seat::{ids_where, seat_index, seat_index_is_first, seat_of, Seat};
use crate::game::st_policy::RegistrationMode;
use crate::game::state::GameView;
use crate::game::win::first_where_is_first;
use crate::rng::{draws_are_in_range, Substream};
use crate::roles::data::name_of;
use crate::roles::{minions_pool, outsiders_pool, townsfolk_pool, type_of, Character, CharacterType};
use crate::text::{dec, joined};
use vstd::prelude::*;

verus! {

/// No two seats share an id.
pub open spec fn distinct_ids(seats: Seq<Seat>) -> bool {
    forall|i: int, j: int| 0 <= i < j < seats.len() ==> seats[i].id != seats[j].id
}

/// Neither poisoned nor drunk.
pub open spec fn works(s: Seat) -> bool {
    !s.poisoned && !s.is_drunk_outsider
}

/// The Demon and the four Minions.
pub open spec fn is_evil(c: Option<Character>) -> bool {
    c == Some(Character::Imp) || c == Some(Character::Poisoner) || c == Some(Character::Spy) || c
        == Some(Character::ScarletWoman) || c == Some(Character::Baron)
}

/// A seat that may show as something it is not.
pub open spec fn may_misregister(s: Seat) -> bool {
    s.true_character == Some(Character::Spy) || s.true_character == Some(Character::Recluse)
}

/// A seat as players read it.
pub open spec fn called(s: Seat) -> Seq<char> {
    s.display_name@ + " (seat "@ + dec(s.id.0 as nat) + ")"@
}

/// The step tells this one seat this text, and nobody anything else.
pub open spec fn tells(
    g: GameView,
    step: NightStep,
    payload: Option<NightActionPayload>,
    to: SeatId,
    text: Seq<char>,
) -> bool {
    g.informed(step, payload) matches Ok((h, told)) && told == seq![
        (to, PrivateMessageView::NightResult { text }),
    ] && h.private_inboxes == g.private_inboxes.push(to, PrivateMessageView::NightResult { text })
}

/// With distinct ids a seat is found where it stands.
pub proof fn found_where_it_stands(seats: Seq<Seat>, i: int)
    requires
        distinct_ids(seats),
        0 <= i < seats.len(),
    ensures
        seat_index(seats, seats[i].id) == Some(i),
        seat_of(seats, seats[i].id) == Some(seats[i]),
{
    seat_index_is_first(seats, seats[i].id);
    let k = seat_index(seats, seats[i].id);
    if k is None {
        assert(seats[i].id != seats[i].id);
    } else if k->0 < i {
        assert(seats[k->0].id != seats[i].id);
    } else if i < k->0 {
        assert(seats[i].id != seats[k->0].id);
    }
}

// ---------------------------------------------------------------------------
// Fortune Teller
// ---------------------------------------------------------------------------

/// What a Fortune Teller hears of two seats.
pub open spec fn fortune_words(yes: bool, a: Seat, b: Seat) -> Seq<char> {
    if yes {
        "Fortune Teller: YES — at least one of "@ + called(a) + " and "@ + called(b)
            + " is a Demon? yes."@
    } else {
        "Fortune Teller: NO — at least one of "@ + called(a) + " and "@ + called(b)
            + " is a Demon? no."@
    }
}

/// A working Fortune Teller hears yes exactly if one of the two seats is the red herring or shows
/// as the Demon; one that does not work hears yes exactly if neither does.
pub proof fn fortune_tellers_hear_the_truth(g: GameView, f: int, i: int, j: int)
    requires
        distinct_ids(g.seats),
        0 <= f < g.seats.len(),
        0 <= i < g.seats.len(),
        0 <= j < g.seats.len(),
    ensures
        ({
            let a = g.seats[i];
            let b = g.seats[j];
            let label = "ft_reg:"@ + dec(g.night_cursor as nat) + ":"@;
            let sign = g.red_herring == Some(a.id) || g.red_herring == Some(b.id)
                || g.registers_demon(a.id, label + dec(a.id.0 as nat) + ":"@ + "a"@)
                || g.registers_demon(b.id, label + dec(b.id.0 as nat) + ":"@ + "b"@);
            tells(
                g,
                NightStep::FortuneTeller { seat: g.seats[f].id },
                Some(NightActionPayload::PickTwo { a: a.id, b: b.id }),
                g.seats[f].id,
                fortune_words(if works(g.seats[f]) { sign } else { !sign }, a, b),
            )
        }),
{
    reveal(GameView::night_info);
    found_where_it_stands(g.seats, f);
    found_where_it_stands(g.seats, i);
    found_where_it_stands(g.seats, j);
    let a = g.seats[i];
    let b = g.seats[j];
    reveal_strlit("Fortune Teller: ");
    reveal_strlit("YES");
    reveal_strlit("NO");
    reveal_strlit(" — at least one of ");
    reveal_strlit(" is a Demon? ");
    reveal_strlit("yes");
    reveal_strlit("no");
    reveal_strlit(".");
    reveal_strlit("Fortune Teller: YES — at least one of ");
    reveal_strlit("Fortune Teller: NO — at least one of ");
    reveal_strlit(" is a Demon? yes.");
    reveal_strlit(" is a Demon? no.");
    let text = g.fortune_text(g.seats[f].id, a.id, b.id);
    assert(text =~= fortune_words(true, a, b) || text =~= fortune_words(false, a, b));
    let label = "ft_reg:"@ + dec(g.night_cursor as nat) + ":"@;
    let sign = g.red_herring == Some(a.id) || g.red_herring == Some(b.id)
        || g.registers_demon(a.id, label + dec(a.id.0 as nat) + ":"@ + "a"@)
        || g.registers_demon(b.id, label + dec(b.id.0 as nat) + ":"@ + "b"@);
    if works(g.seats[f]) == sign {
        assert(text =~= fortune_words(true, a, b));
    } else {
        assert(text =~= fortune_words(false, a, b));
    }
}

/// With the Imp among the two seats a working Fortune Teller hears yes; with neither the Imp nor a
/// Recluse nor the red herring there the answer is no.
pub proof fn fortune_tellers_find_the_imp(g: GameView, f: int, i: int, j: int)
    requires
        distinct_ids(g.seats),
        0 <= f < g.seats.len(),
        0 <= i < g.seats.len(),
        0 <= j < g.seats.len(),
        works(g.seats[f]),
    ensures
        ({
            let a = g.seats[i];
            let b = g.seats[j];
            let step = NightStep::FortuneTeller { seat: g.seats[f].id };
            let picks = Some(NightActionPayload::PickTwo { a: a.id, b: b.id });
            &&& a.true_character == Some(Character::Imp) || b.true_character == Some(
                Character::Imp,
            ) || g.red_herring == Some(a.id) || g.red_herring == Some(b.id) ==> tells(
                g,
                step,
                picks,
                g.seats[f].id,
                fortune_words(true, a, b),
            )
            &&& a.true_character != Some(Character::Imp) && b.true_character != Some(
                Character::Imp,
            ) && a.true_character != Some(Character::Recluse) && b.true_character != Some(
                Character::Recluse,
            ) && g.red_herring != Some(a.id) && g.red_herring != Some(b.id) ==> tells(
                g,
                step,
                picks,
                g.seats[f].id,
                fortune_words(false, a, b),
            )
        }),
{
    fortune_tellers_hear_the_truth(g, f, i, j);
    found_where_it_stands(g.seats, i);
    found_where_it_stands(g.seats, j);
}

// ---------------------------------------------------------------------------
// Empath
// ---------------------------------------------------------------------------

/// What an Empath learns.
pub open spec fn empath_words(n: nat) -> Seq<char> {
    "Empath: you learn that "@ + dec(n) + " of your living neighbors are evil."@
}

/// `d` seats on from `e` in one direction sits the nearest other living player.
pub open spec fn nearest(seats: Seq<Seat>, e: int, d: int, clockwise: bool) -> bool {
    &&& 1 <= d < seats.len()
    &&& seats[beside(seats.len() as int, e, d, clockwise)].alive
    &&& forall|k: int|
        1 <= k < d ==> !seats[#[trigger] beside(seats.len() as int, e, k, clockwise)].alive
}

/// The place `d` seats on from `e` in a circle of `n`.
pub open spec fn beside(n: int, e: int, d: int, clockwise: bool) -> int {
    if clockwise { (e + d) % n } else { (e + n - d) % n }
}

proof fn beside_is_around(n: int, e: int, d: int, clockwise: bool)
    requires
        0 <= e < n,
        1 <= d <= n,
    ensures
        beside(n, e, d, clockwise) == around(e, d, n, clockwise),
        0 <= beside(n, e, d, clockwise) < n,
{
    if clockwise {
        if e + d < n {
            vstd::arithmetic::div_mod::lemma_small_mod((e + d) as nat, n as nat);
        } else {
            vstd::arithmetic::div_mod::lemma_small_mod((e + d - n) as nat, n as nat);
            vstd::arithmetic::div_mod::lemma_mod_sub_multiples_vanish(e + d, n);
        }
    } else {
        if d <= e {
            vstd::arithmetic::div_mod::lemma_small_mod((e - d) as nat, n as nat);
            vstd::arithmetic::div_mod::lemma_mod_sub_multiples_vanish(e + n - d, n);
        } else {
            vstd::arithmetic::div_mod::lemma_small_mod((e + n - d) as nat, n as nat);
        }
    }
}

proof fn walking_finds_the_nearest(
    seats: Seq<Seat>,
    e: int,
    d: int,
    clockwise: bool,
    step: int,
)
    requires
        0 <= e < seats.len(),
        nearest(seats, e, d, clockwise),
        1 <= step <= d,
    ensures
        next_living(seats, e, clockwise, step) == Some(
            beside(seats.len() as int, e, d, clockwise),
        ),
    decreases d - step,
{
    beside_is_around(seats.len() as int, e, step, clockwise);
    if step < d {
        assert(!seats[beside(seats.len() as int, e, step, clockwise)].alive);
        walking_finds_the_nearest(seats, e, d, clockwise, step + 1);
    }
}

proof fn others_are_elsewhere(n: int, e: int, d: int, clockwise: bool)
    requires
        0 <= e < n,
        1 <= d < n,
    ensures
        beside(n, e, d, clockwise) != e,
        0 <= beside(n, e, d, clockwise) < n,
{
    beside_is_around(n, e, d, clockwise);
}

/// A working Empath learns how many of the nearest living players on either side are evil, a
/// shared one counting once; one that does not work learns another number, up to two. (Of
/// neighbours that show what they are.)
pub proof fn empaths_count_evil_neighbours(g: GameView, e: int, cw: int, ccw: int)
    requires
        distinct_ids(g.seats),
        0 <= e < g.seats.len(),
        nearest(g.seats, e, cw, true),
        nearest(g.seats, e, ccw, false),
        !may_misregister(g.seats[beside(g.seats.len() as int, e, cw, true)]),
        !may_misregister(g.seats[beside(g.seats.len() as int, e, ccw, false)]),
    ensures
        ({
            let i = beside(g.seats.len() as int, e, cw, true);
            let j = beside(g.seats.len() as int, e, ccw, false);
            let left = if is_evil(g.seats[i].true_character) { 1nat } else { 0nat };
            let right = if i != j && is_evil(g.seats[j].true_character) { 1nat } else { 0nat };
            let step = NightStep::Empath { seat: g.seats[e].id };
            if works(g.seats[e]) {
                tells(g, step, None, g.seats[e].id, empath_words(left + right))
            } else {
                exists|n: nat|
                    n <= 2 && n != left + right && #[trigger] tells(
                        g,
                        step,
                        None,
                        g.seats[e].id,
                        empath_words(n),
                    )
            }
        }),
{
    reveal(GameView::night_info);
    let n = g.seats.len() as int;
    let i = beside(n, e, cw, true);
    let j = beside(n, e, ccw, false);
    others_are_elsewhere(n, e, cw, true);
    others_are_elsewhere(n, e, ccw, false);
    found_where_it_stands(g.seats, e);
    found_where_it_stands(g.seats, i);
    found_where_it_stands(g.seats, j);
    walking_finds_the_nearest(g.seats, e, cw, true, 1);
    walking_finds_the_nearest(g.seats, e, ccw, false, 1);
    let truth = g.empath_number(g.seats[e].id);
    let lies = lies_up_to(2, truth as int);
    lies_are_no_truth(2, truth as int);
    draws_are_in_range(g.night_stream("empath_lie:c"@), lies.len());
    if !works(g.seats[e]) {
        let shown = g.empath_shown(g.seats[e].id) as nat;
        assert(lies[g.night_stream("empath_lie:c"@).below(lies.len()).0] == shown);
        assert(tells(
            g,
            NightStep::Empath { seat: g.seats[e].id },
            None,
            g.seats[e].id,
            empath_words(shown),
        ));
    }
}

/// The lies up to a number are just the other numbers up to it.
proof fn lies_are_no_truth(max: int, truth: int)
    requires
        max <= 255,
    ensures
        forall|i: int|
            0 <= i < lies_up_to(max, truth).len() ==> (#[trigger] lies_up_to(max, truth)[i])
                != truth && lies_up_to(max, truth)[i] <= max,
        lies_up_to(max, truth).len() == if max < 0 {
            0
        } else if 0 <= truth <= max {
            max
        } else {
            max + 1
        },
    decreases max + 1,
{
    if max >= 0 {
        lies_are_no_truth(max - 1, truth);
    }
}

// ---------------------------------------------------------------------------
// Chef
// ---------------------------------------------------------------------------

/// What a Chef learns.
pub open spec fn chef_words(n: nat) -> Seq<char> {
    "Chef: you learn that there are "@ + dec(n) + " pairs of evil neighbors."@
}

/// How many of the first `k` seats are evil and have an evil clockwise neighbour.
pub open spec fn evil_neighbours(seats: Seq<Seat>, k: int) -> nat
    decreases k,
{
    if k <= 0 {
        0
    } else {
        evil_neighbours(seats, k - 1) + if is_evil(seats[k - 1].true_character) && is_evil(
            seats[k % seats.len() as int].true_character,
        ) { 1nat } else { 0nat }
    }
}

proof fn pairs_are_evil_neighbours(g: GameView, k: int)
    requires
        distinct_ids(g.seats),
        0 <= k <= g.seats.len(),
        forall|i: int| 0 <= i < g.seats.len() ==> !may_misregister(#[trigger] g.seats[i]),
    ensures
        g.evil_pairs(k) == evil_neighbours(g.seats, k),
        evil_neighbours(g.seats, k) <= k,
    decreases k,
{
    if k > 0 {
        pairs_are_evil_neighbours(g, k - 1);
        let n = g.seats.len() as int;
        let b = if k < n { k } else { 0 };
        found_where_it_stands(g.seats, k - 1);
        found_where_it_stands(g.seats, b);
        if k < n {
            vstd::arithmetic::div_mod::lemma_small_mod(k as nat, n as nat);
        } else {
            vstd::arithmetic::div_mod::lemma_mod_self_0(n);
        }
        assert(k % n == b);
        assert(!may_misregister(g.seats[k - 1]) && !may_misregister(g.seats[b]));
    }
}

/// A working Chef learns how many players are evil and sit next to an evil player, going clockwise
/// round the table; one that does not work learns another number, up to four. (At a table where
/// everyone shows what they are.)
pub proof fn chefs_count_evil_pairs(g: GameView, c: int)
    requires
        distinct_ids(g.seats),
        2 <= g.seats.len() <= 255,
        0 <= c < g.seats.len(),
        forall|i: int| 0 <= i < g.seats.len() ==> !may_misregister(#[trigger] g.seats[i]),
    ensures
        ({
            let truth = evil_neighbours(g.seats, g.seats.len() as int);
            let step = NightStep::Chef { seat: g.seats[c].id };
            if works(g.seats[c]) {
                tells(g, step, None, g.seats[c].id, chef_words(truth))
            } else {
                exists|n: nat|
                    n <= 4 && n != truth && #[trigger] tells(
                        g,
                        step,
                        None,
                        g.seats[c].id,
                        chef_words(n),
                    )
            }
        }),
{
    reveal(GameView::night_info);
    let size = g.seats.len() as int;
    found_where_it_stands(g.seats, c);
    pairs_are_evil_neighbours(g, size);
    let truth = g.chef_number();
    let most = if size < 4 { size } else { 4 };
    let lies = lies_up_to(most, truth as int);
    lies_are_no_truth(most, truth as int);
    vstd::arithmetic::div_mod::lemma_small_mod(size as nat, 256);
    draws_are_in_range(g.night_stream("chef_lie:c"@), lies.len());
    if !works(g.seats[c]) {
        let shown = g.chef_shown(g.seats[c].id) as nat;
        assert(lies[g.night_stream("chef_lie:c"@).below(lies.len()).0] == shown);
        assert(tells(
            g,
            NightStep::Chef { seat: g.seats[c].id },
            None,
            g.seats[c].id,
            chef_words(shown),
        ));
    }
}

// ---------------------------------------------------------------------------
// Washerwoman, Librarian, Investigator
// ---------------------------------------------------------------------------

/// What a pair role learns: two seats, and the character that one of them is said to be.
pub open spec fn pair_words(role: Seq<char>, a: Seat, b: Seat, c: Character) -> Seq<char> {
    role + ": one of "@ + called(a) + " and "@ + called(b) + " is the "@ + name_of(c) + "."@
}

/// The step tells the seat of two different players, one of whom is truly that character, of this
/// kind.
pub open spec fn tells_a_true_pair(
    g: GameView,
    step: NightStep,
    to: SeatId,
    role: Seq<char>,
    ty: CharacterType,
) -> bool {
    exists|i: int, j: int, c: Character|
        {
            &&& 0 <= i < g.seats.len() && 0 <= j < g.seats.len() && i != j
            &&& g.seats[i].true_character == Some(c) || g.seats[j].true_character == Some(c)
            &&& type_of(c) == ty
            &&& #[trigger] tells(g, step, None, to, pair_words(role, g.seats[i], g.seats[j], c))
        }
}

/// Some seat truly holds a character of this kind.
pub open spec fn in_play(seats: Seq<Seat>, ty: CharacterType) -> bool {
    exists|i: int|
        0 <= i < seats.len() && ((#[trigger] seats[i]).true_character matches Some(c) && type_of(c)
            == ty)
}

proof fn holders_hold(seats: Seq<Seat>, ty: CharacterType)
    ensures
        holders_of_type(seats, ty).len() > 0 <==> in_play(seats, ty),
        forall|k: int|
            0 <= k < holders_of_type(seats, ty).len() ==> exists|i: int|
                0 <= i < seats.len() && (#[trigger] seats[i]).id == (
                #[trigger] holders_of_type(seats, ty)[k]).0 && seats[i].true_character == Some(
                    holders_of_type(seats, ty)[k].1,
                ) && type_of(holders_of_type(seats, ty)[k].1) == ty,
    decreases seats.len(),
{
    if seats.len() > 0 {
        let front = seats.drop_last();
        holders_hold(front, ty);
        let held = holders_of_type(front, ty);
        let all = holders_of_type(seats, ty);
        assert forall|k: int| 0 <= k < all.len() implies exists|i: int|
            0 <= i < seats.len() && (#[trigger] seats[i]).id == (#[trigger] all[k]).0
                && seats[i].true_character == Some(all[k].1) && type_of(all[k].1) == ty by {
            if k < held.len() {
                assert(held[k] == all[k]);
                let i = choose|i: int|
                    0 <= i < front.len() && (#[trigger] front[i]).id == held[k].0
                        && front[i].true_character == Some(held[k].1) && type_of(held[k].1) == ty;
                assert(seats[i] == front[i]);
            } else {
                assert(seats[seats.len() - 1] == seats.last());
            }
        }
        if in_play(front, ty) {
            let i = choose|i: int|
                0 <= i < front.len() && ((#[trigger] front[i]).true_character matches Some(c)
                    && type_of(c) == ty);
            assert(seats[i] == front[i]);
        }
        if in_play(seats, ty) {
            let i = choose|i: int|
                0 <= i < seats.len() && ((#[trigger] seats[i]).true_character matches Some(c)
                    && type_of(c) == ty);
            if i < front.len() {
                assert(front[i] == seats[i]);
            }
        }
        assert(seats[seats.len() - 1] == seats.last());
    }
}

/// A seat with this id is kept.
pub open spec fn is_kept(seats: Seq<Seat>, keep: spec_fn(Seat) -> bool, id: SeatId) -> bool {
    exists|i: int| 0 <= i < seats.len() && (#[trigger] seats[i]).id == id && keep(seats[i])
}

/// The ids kept are just those of seats that are wanted.
pub proof fn kept_ids_stand(seats: Seq<Seat>, keep: spec_fn(Seat) -> bool)
    ensures
        forall|k: int|
            0 <= k < ids_where(seats, keep).len() ==> is_kept(
                seats,
                keep,
                #[trigger] ids_where(seats, keep)[k],
            ),
        forall|i: int|
            0 <= i < seats.len() && keep(#[trigger] seats[i]) ==> ids_where(seats, keep).contains(
                seats[i].id,
            ),
    decreases seats.len(),
{
    if seats.len() > 0 {
        let front = seats.drop_last();
        kept_ids_stand(front, keep);
        let a = ids_where(front, keep);
        let b = ids_where(seats, keep);
        assert forall|k: int| 0 <= k < b.len() implies is_kept(seats, keep, #[trigger] b[k]) by {
            if k < a.len() {
                assert(a[k] == b[k]);
                assert(is_kept(front, keep, a[k]));
                let i = choose|i: int|
                    0 <= i < front.len() && (#[trigger] front[i]).id == a[k] && keep(front[i]);
                assert(seats[i] == front[i]);
            } else {
                assert(seats[seats.len() - 1] == seats.last());
            }
        }
        assert forall|i: int| 0 <= i < seats.len() && keep(#[trigger] seats[i]) implies b.contains(
            seats[i].id,
        ) by {
            if i < front.len() {
                assert(front[i] == seats[i]);
                let k = a.index_of(seats[i].id);
                assert(b[k] == seats[i].id);
            } else {
                assert(b.last() == seats[i].id);
            }
        }
    }
}

proof fn a_true_pair_is_found(
    g: GameView,
    ty: CharacterType,
    pool: Seq<Character>,
    rng: Substream,
)
    requires
        distinct_ids(g.seats),
        2 <= g.seats.len() <= usize::MAX,
        in_play(g.seats, ty),
        ty == CharacterType::Townsfolk ==> g.registration_mode == RegistrationMode::AlwaysTrue
            || forall|i: int| 0 <= i < g.seats.len() ==> (#[trigger] g.seats[i]).true_character
            != Some(Character::Spy),
    ensures
        g.true_pair(ty, pool, rng).0 matches Some(info) && exists|i: int, j: int|
            {
                &&& 0 <= i < g.seats.len() && 0 <= j < g.seats.len() && i != j
                &&& (#[trigger] g.seats[i]).id == info.seat_a && (#[trigger] g.seats[j]).id
                    == info.seat_b
                &&& g.seats[i].true_character == Some(info.character)
                    || g.seats[j].true_character == Some(info.character)
                &&& type_of(info.character) == ty
            },
{
    let holders = holders_of_type(g.seats, ty);
    holders_hold(g.seats, ty);
    let is_spy = |s: Seat| s.true_character == Some(Character::Spy);
    first_where_is_first(g.seats, is_spy);
    let (owners, r1) = g.pair_owners(ty, pool, rng);
    assert(owners == holders);
    draws_are_in_range(r1, owners.len());
    let (k, r2) = r1.below(owners.len());
    let (correct, character) = owners[k];
    let i = choose|i: int|
        0 <= i < g.seats.len() && (#[trigger] g.seats[i]).id == holders[k].0
            && g.seats[i].true_character == Some(holders[k].1) && type_of(holders[k].1) == ty;
    let keep = |s: Seat| s.id != correct;
    kept_ids_stand(g.seats, keep);
    let others = ids_where(g.seats, keep);
    let o: int = if i == 0 { 1 } else { 0 };
    assert(keep(g.seats[o])) by {
        if o < i {
            assert(g.seats[o].id != g.seats[i].id);
        } else {
            assert(g.seats[i].id != g.seats[o].id);
        }
    }
    assert(others.contains(g.seats[o].id));
    draws_are_in_range(r2, others.len());
    let (w, r3) = r2.below(others.len());
    assert(is_kept(g.seats, keep, others[w]));
    let j = choose|j: int|
        0 <= j < g.seats.len() && (#[trigger] g.seats[j]).id == others[w] && keep(g.seats[j]);
    let info = g.true_pair(ty, pool, rng).0->0;
    if info.seat_a == correct {
        assert(g.seats[i].id == info.seat_a && g.seats[j].id == info.seat_b);
    } else {
        assert(g.seats[j].id == info.seat_a && g.seats[i].id == info.seat_b);
    }
}

proof fn a_found_pair_is_told(
    g: GameView,
    w: int,
    step: NightStep,
    role: Seq<char>,
    ty: CharacterType,
    pool: Seq<Character>,
    rng: Substream,
)
    requires
        distinct_ids(g.seats),
        2 <= g.seats.len() <= usize::MAX,
        0 <= w < g.seats.len(),
        in_play(g.seats, ty),
        ty == CharacterType::Townsfolk ==> g.registration_mode == RegistrationMode::AlwaysTrue
            || forall|i: int| 0 <= i < g.seats.len() ==> (#[trigger] g.seats[i]).true_character
            != Some(Character::Spy),
        g.true_pair(ty, pool, rng).0 matches Some(info) ==> tells(
            g,
            step,
            None,
            g.seats[w].id,
            g.pair_text(role, info),
        ),
    ensures
        tells_a_true_pair(g, step, g.seats[w].id, role, ty),
{
    a_true_pair_is_found(g, ty, pool, rng);
    let info = g.true_pair(ty, pool, rng).0->0;
    let (i, j) = choose|i: int, j: int|
        {
            &&& 0 <= i < g.seats.len() && 0 <= j < g.seats.len() && i != j
            &&& (#[trigger] g.seats[i]).id == info.seat_a && (#[trigger] g.seats[j]).id
                == info.seat_b
            &&& g.seats[i].true_character == Some(info.character) || g.seats[j].true_character
                == Some(info.character)
            &&& type_of(info.character) == ty
        };
    found_where_it_stands(g.seats, i);
    found_where_it_stands(g.seats, j);
    assert(g.pair_text(role, info) == pair_words(role, g.seats[i], g.seats[j], info.character));
}

/// A working Washerwoman learns two players one of whom truly is the Townsfolk she is told of, a
/// working Librarian of an Outsider and a working Investigator of a Minion. Where there is no
/// Outsider the Librarian learns just that. (No Spy passes for a Townsfolk at this table.)
pub proof fn pair_information_is_true(g: GameView, w: int)
    requires
        distinct_ids(g.seats),
        2 <= g.seats.len() <= usize::MAX,
        0 <= w < g.seats.len(),
        works(g.seats[w]),
        g.registration_mode == RegistrationMode::AlwaysTrue || forall|i: int|
            0 <= i < g.seats.len() ==> (#[trigger] g.seats[i]).true_character != Some(
                Character::Spy,
            ),
    ensures
        ({
            let id = g.seats[w].id;
            &&& in_play(g.seats, CharacterType::Townsfolk) ==> tells_a_true_pair(
                g,
                NightStep::Washerwoman { seat: id },
                id,
                "Washerwoman"@,
                CharacterType::Townsfolk,
            )
            &&& in_play(g.seats, CharacterType::Outsider) ==> tells_a_true_pair(
                g,
                NightStep::Librarian { seat: id },
                id,
                "Librarian"@,
                CharacterType::Outsider,
            )
            &&& !in_play(g.seats, CharacterType::Outsider) ==> tells(
                g,
                NightStep::Librarian { seat: id },
                None,
                id,
                "Librarian: there are 0 Outsiders in play."@,
            )
            &&& in_play(g.seats, CharacterType::Minion) ==> tells_a_true_pair(
                g,
                NightStep::Investigator { seat: id },
                id,
                "Investigator"@,
                CharacterType::Minion,
            )
        }),
{
    if in_play(g.seats, CharacterType::Townsfolk) {
        washerwoman_is_told(g, w);
    }
    librarian_is_told(g, w);
    if in_play(g.seats, CharacterType::Minion) {
        investigator_is_told(g, w);
    }
}

proof fn washerwoman_is_told(g: GameView, w: int)
    requires
        distinct_ids(g.seats),
        2 <= g.seats.len() <= usize::MAX,
        0 <= w < g.seats.len(),
        works(g.seats[w]),
        in_play(g.seats, CharacterType::Townsfolk),
        g.registration_mode == RegistrationMode::AlwaysTrue || forall|i: int|
            0 <= i < g.seats.len() ==> (#[trigger] g.seats[i]).true_character != Some(
                Character::Spy,
            ),
    ensures
        tells_a_true_pair(
            g,
            NightStep::Washerwoman { seat: g.seats[w].id },
            g.seats[w].id,
            "Washerwoman"@,
            CharacterType::Townsfolk,
        ),
{
    let id = g.seats[w].id;
    let step = NightStep::Washerwoman { seat: id };
    let rng = g.night_stream("washerwoman"@ + ":c"@);
    found_where_it_stands(g.seats, w);
    let found = g.true_pair(CharacterType::Townsfolk, townsfolk_pool(), rng).0;
    if found is Some {
        let text = g.pair_text("Washerwoman"@, found->0);
        assert(g.night_info(step, None) == Ok::<
            Option<(GameView, SeatId, Seq<char>)>,
            GameError,
        >(Some((g, id, text)))) by {
            reveal(GameView::night_info);
        }
        assert(tells(g, step, None, id, text));
    }
    a_found_pair_is_told(
        g,
        w,
        step,
        "Washerwoman"@,
        CharacterType::Townsfolk,
        townsfolk_pool(),
        rng,
    );
}

proof fn librarian_is_told(g: GameView, w: int)
    requires
        distinct_ids(g.seats),
        2 <= g.seats.len() <= usize::MAX,
        0 <= w < g.seats.len(),
        works(g.seats[w]),
    ensures
        in_play(g.seats, CharacterType::Outsider) ==> tells_a_true_pair(
            g,
            NightStep::Librarian { seat: g.seats[w].id },
            g.seats[w].id,
            "Librarian"@,
            CharacterType::Outsider,
        ),
        !in_play(g.seats, CharacterType::Outsider) ==> tells(
            g,
            NightStep::Librarian { seat: g.seats[w].id },
            None,
            g.seats[w].id,
            "Librarian: there are 0 Outsiders in play."@,
        ),
{
    let id = g.seats[w].id;
    let step = NightStep::Librarian { seat: id };
    let rng = g.night_stream("librarian"@ + ":c"@);
    found_where_it_stands(g.seats, w);
    holders_hold(g.seats, CharacterType::Outsider);
    let found = g.true_pair(CharacterType::Outsider, outsiders_pool(), rng).0;
    if in_play(g.seats, CharacterType::Outsider) {
        if found is Some {
            let text = g.pair_text("Librarian"@, found->0);
            assert(g.night_info(step, None) == Ok::<
                Option<(GameView, SeatId, Seq<char>)>,
                GameError,
            >(Some((g, id, text)))) by {
                reveal(GameView::night_info);
            }
            assert(tells(g, step, None, id, text));
        }
        a_found_pair_is_told(
            g,
            w,
            step,
            "Librarian"@,
            CharacterType::Outsider,
            outsiders_pool(),
            rng,
        );
    } else {
        reveal(GameView::night_info);
    }
}

proof fn investigator_is_told(g: GameView, w: int)
    requires
        distinct_ids(g.seats),
        2 <= g.seats.len() <= usize::MAX,
        0 <= w < g.seats.len(),
        works(g.seats[w]),
        in_play(g.seats, CharacterType::Minion),
    ensures
        tells_a_true_pair(
            g,
            NightStep::Investigator { seat: g.seats[w].id },
            g.seats[w].id,
            "Investigator"@,
            CharacterType::Minion,
        ),
{
    let id = g.seats[w].id;
    let step = NightStep::Investigator { seat: id };
    let rng = g.night_stream("investigator"@ + ":c"@);
    found_where_it_stands(g.seats, w);
    let found = g.true_pair(CharacterType::Minion, minions_pool(), rng).0;
    if found is Some {
        let text = g.pair_text("Investigator"@, found->0);
        assert(g.night_info(step, None) == Ok::<
            Option<(GameView, SeatId, Seq<char>)>,
            GameError,
        >(Some((g, id, text)))) by {
            reveal(GameView::night_info);
        }
        assert(tells(g, step, None, id, text));
    }
    a_found_pair_is_told(g, w, step, "Investigator"@, CharacterType::Minion, minions_pool(), rng);
}

// ---------------------------------------------------------------------------
// Undertaker, Ravenkeeper, Butler
// ---------------------------------------------------------------------------

/// A working Undertaker learns the true character of whoever was executed today, or that nobody
/// was.
pub proof fn undertakers_learn_the_executed(g: GameView, u: int, x: int)
    requires
        distinct_ids(g.seats),
        0 <= u < g.seats.len(),
        0 <= x < g.seats.len(),
        works(g.seats[u]),
    ensures
        ({
            let step = NightStep::Undertaker { seat: g.seats[u].id };
            &&& g.executed_today == Some(g.seats[x].id) ==> (g.seats[x].true_character matches Some(
                c,
            ) ==> tells(
                g,
                step,
                None,
                g.seats[u].id,
                "Undertaker: the player executed today was the "@ + name_of(c) + "."@,
            ))
            &&& g.executed_today is None ==> tells(
                g,
                step,
                None,
                g.seats[u].id,
                "Undertaker: nobody was executed today."@,
            )
        }),
{
    reveal(GameView::night_info);
    found_where_it_stands(g.seats, u);
    found_where_it_stands(g.seats, x);
}

/// A working Ravenkeeper learns the true character of the player it points at.
pub proof fn ravenkeepers_learn_their_target(g: GameView, r: int, t: int)
    requires
        distinct_ids(g.seats),
        0 <= r < g.seats.len(),
        0 <= t < g.seats.len(),
        works(g.seats[r]),
        g.seats[t].true_character is Some,
    ensures
        tells(
            g,
            NightStep::Ravenkeeper { seat: g.seats[r].id },
            Some(NightActionPayload::PickOne { target: g.seats[t].id }),
            g.seats[r].id,
            "Ravenkeeper: "@ + called(g.seats[t]) + " is the "@ + name_of(
                g.seats[t].true_character->0,
            ) + "."@,
        ),
{
    reveal(GameView::night_info);
    found_where_it_stands(g.seats, r);
    found_where_it_stands(g.seats, t);
}

/// An Undertaker or Ravenkeeper that does not work is told of some character, drawn without regard
/// to the table.
pub proof fn disabled_readers_learn_nothing(g: GameView, h: GameView, r: int, t: int)
    requires
        distinct_ids(g.seats),
        0 <= r < g.seats.len(),
        0 <= t < g.seats.len(),
        !works(g.seats[r]),
        h == (GameView {
            seats: h.seats,
            executed_today: h.executed_today,
            ..g
        }),
        h.seats.len() == g.seats.len(),
        forall|i: int|
            0 <= i < g.seats.len() ==> (#[trigger] h.seats[i]) == (Seat {
                true_character: h.seats[i].true_character,
                ..g.seats[i]
            }),
    ensures
        ({
            let pick = Some(NightActionPayload::PickOne { target: g.seats[t].id });
            &&& told_by(g, NightStep::Undertaker { seat: g.seats[r].id }, None) == told_by(
                h,
                NightStep::Undertaker { seat: g.seats[r].id },
                None,
            )
            &&& told_by(g, NightStep::Ravenkeeper { seat: g.seats[r].id }, pick) == told_by(
                h,
                NightStep::Ravenkeeper { seat: g.seats[r].id },
                pick,
            )
        }),
{
    assert forall|i: int, j: int| 0 <= i < j < h.seats.len() implies h.seats[i].id
        != h.seats[j].id by {
        assert(g.seats[i].id != g.seats[j].id);
    }
    found_where_it_stands(g.seats, r);
    found_where_it_stands(g.seats, t);
    found_where_it_stands(h.seats, r);
    found_where_it_stands(h.seats, t);
    let id = g.seats[r].id;
    assert(h.seats[r].id == id && h.seats[t].id == g.seats[t].id);
    assert(g.undertaker_text(id) == h.undertaker_text(id));
    assert(g.ravenkeeper_text(id, g.seats[t].id) == h.ravenkeeper_text(id, g.seats[t].id));
    readers_are_told(g, id, g.seats[t].id);
    readers_are_told(h, id, g.seats[t].id);
}

proof fn readers_are_told(g: GameView, id: SeatId, target: SeatId)
    ensures
        told_by(g, NightStep::Undertaker { seat: id }, None) == Some(
            seq![(id, PrivateMessageView::NightResult { text: g.undertaker_text(id) })],
        ),
        told_by(
            g,
            NightStep::Ravenkeeper { seat: id },
            Some(NightActionPayload::PickOne { target }),
        ) == Some(
            seq![(id, PrivateMessageView::NightResult { text: g.ravenkeeper_text(id, target) })],
        ),
{
    reveal(GameView::night_info);
}

/// What a step tells whom, if it is granted.
pub open spec fn told_by(
    g: GameView,
    step: NightStep,
    payload: Option<NightActionPayload>,
) -> Option<Seq<(SeatId, PrivateMessageView)>> {
    match g.informed(step, payload) {
        Ok((_, told)) => Some(told),
        Err(_) => None,
    }
}

/// A Butler serves the player it picks from then on; nothing else at the table changes.
pub proof fn butlers_get_their_master(g: GameView, b: int, m: int)
    requires
        distinct_ids(g.seats),
        0 <= b < g.seats.len(),
        0 <= m < g.seats.len(),
    ensures
        ({
            let step = NightStep::Butler { seat: g.seats[b].id };
            let pick = Some(NightActionPayload::PickOne { target: g.seats[m].id });
            &&& tells(
                g,
                step,
                pick,
                g.seats[b].id,
                "Butler: your master is "@ + called(g.seats[m]) + "."@,
            )
            &&& g.informed(step, pick) matches Ok((h, _)) && h.seats == g.seats.update(
                b,
                Seat { butler_master: Some(g.seats[m].id), ..g.seats[b] },
            )
        }),
{
    reveal(GameView::night_info);
    found_where_it_stands(g.seats, b);
    found_where_it_stands(g.seats, m);
    let h = g.butler_serves(g.seats[b].id, g.seats[m].id);
    assert(distinct_ids(h.seats)) by {
        assert forall|i: int, j: int| 0 <= i < j < h.seats.len() implies h.seats[i].id
            != h.seats[j].id by {
            assert(g.seats[i].id != g.seats[j].id);
        }
    }
    assert(h.seats[m].id == g.seats[m].id && h.seats[m].display_name == g.seats[m].display_name);
    found_where_it_stands(h.seats, m);
}

/// A step that needs a choice is refused without a fitting one, and nothing is told.
pub proof fn misfitting_choices_are_refused(
    g: GameView,
    seat: SeatId,
    payload: Option<NightActionPayload>,
)
    ensures
        !(payload matches Some(NightActionPayload::PickTwo { .. })) ==> g.informed(
            NightStep::FortuneTeller { seat },
            payload,
        ) == Err::<(GameView, Seq<(SeatId, PrivateMessageView)>), GameError>(
            GameError::WrongPayload,
        ),
        !(payload matches Some(NightActionPayload::PickOne { .. })) ==> g.informed(
            NightStep::Butler { seat },
            payload,
        ) == Err::<(GameView, Seq<(SeatId, PrivateMessageView)>), GameError>(
            GameError::WrongPayload,
        ) && g.informed(NightStep::Ravenkeeper { seat }, payload) == Err::<
            (GameView, Seq<(SeatId, PrivateMessageView)>),
            GameError,
        >(GameError::WrongPayload),
{
    reveal(GameView::night_info);
}

// ---------------------------------------------------------------------------
// Spy
// ---------------------------------------------------------------------------

/// One line of the Grimoire as a Spy reads it.
pub open spec fn grimoire_entry(s: Seat) -> Seq<char> {
    "- "@ + s.display_name@ + " (seat "@ + dec(s.id.0 as nat) + "): "@ + (if s.alive {
        "alive"@
    } else {
        "dead"@
    }) + ", "@ + (match s.true_character {
        Some(c) => name_of(c),
        None => "unknown"@,
    }) + ", poisoned="@ + (if s.poisoned { "true"@ } else { "false"@ }) + (
    match s.believed_character {
        Some(c) => ", believed="@ + name_of(c),
        None => ""@,
    })
}

proof fn true_lines_are_entries(seats: Seq<Seat>)
    ensures
        true_lines(seats) == seq!["Spy: Grimoire"@] + seats.map_values(
            |s: Seat| grimoire_entry(s),
        ),
    decreases seats.len(),
{
    let entry = |s: Seat| grimoire_entry(s);
    if seats.len() > 0 {
        let front = seats.drop_last();
        true_lines_are_entries(front);
        let s = seats.last();
        reveal_strlit("");
        let line = true_lines(seats).last();
        assert(line =~= grimoire_entry(s));
        assert(seats.map_values(entry) =~= front.map_values(entry).push(entry(s)));
        assert(true_lines(seats) =~= seq!["Spy: Grimoire"@] + seats.map_values(entry));
    } else {
        assert(true_lines(seats) =~= seq!["Spy: Grimoire"@] + seats.map_values(entry));
    }
}

/// A working Spy sees the whole Grimoire: of every seat, in order, whether it lives, what it truly
/// is, whether it is poisoned and what a Drunk believes.
pub proof fn spies_see_the_grimoire(g: GameView, s: int)
    requires
        distinct_ids(g.seats),
        0 <= s < g.seats.len(),
        works(g.seats[s]),
    ensures
        tells(
            g,
            NightStep::Spy { seat: g.seats[s].id },
            None,
            g.seats[s].id,
            joined(
                seq!["Spy: Grimoire"@] + g.seats.map_values(|x: Seat| grimoire_entry(x)),
                "\n"@,
            ),
        ),
{
    reveal(GameView::night_info);
    found_where_it_stands(g.seats, s);
    true_lines_are_entries(g.seats);
}

} // verus!
