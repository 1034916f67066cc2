//! What the information roles are told when they do not work, and which characters are of which
//! kind.

use crate::comms::PrivateMessageView;
use crate::error::GameError;
use crate::game::ability::info::fake_lines;
use crate::game::ability::info_laws::{
    distinct_ids, found_where_it_stands, is_evil, pair_words, tells, told_by, works,
};
use crate::game::ids::SeatId;
use crate::game::phase::NightStep;
use crate::game::seat::Seat;
use crate::game::state::GameView;
use crate::rng::{draws_are_in_range, Substream};
use crate::roles::{
    minions_pool, outsiders_pool, team_of, townsfolk_pool, type_of, Character, CharacterType, Team,
};
use vstd::prelude::*;

verus! {

/// The Imp is the Demon and with the four Minions evil; four are Outsiders, and they and the rest,
/// the Townsfolk, are good.
pub proof fn kinds_are_as_on_the_sheet(c: Character)
    ensures
        type_of(c) == CharacterType::Demon <==> c == Character::Imp,
        type_of(c) == CharacterType::Minion <==> c == Character::Poisoner || c == Character::Spy
            || c == Character::ScarletWoman || c == Character::Baron,
        type_of(c) == CharacterType::Outsider <==> c == Character::Butler || c == Character::Drunk
            || c == Character::Recluse || c == Character::Saint,
        team_of(c) == Team::Evil <==> is_evil(Some(c)),
{
}

/// The step tells the seat of two different players and some character of this kind.
pub open spec fn tells_some_pair(
    g: GameView,
    step: NightStep,
    to: SeatId,
    role: Seq<char>,
    ty: CharacterType,
) -> bool {
    exists|i: int, j: int, c: Character|
        {
            &&& 0 <= i < g.seats.len() && 0 <= j < g.seats.len() && i != j
            &&& type_of(c) == ty
            &&& #[trigger] tells(g, step, None, to, pair_words(role, g.seats[i], g.seats[j], c))
        }
}

proof fn a_drawn_pair_is_told(
    g: GameView,
    step: NightStep,
    to: SeatId,
    role: Seq<char>,
    ty: CharacterType,
    pool: Seq<Character>,
    rng: Substream,
)
    requires
        distinct_ids(g.seats),
        2 <= g.seats.len() <= usize::MAX,
        pool.len() > 0,
        forall|k: int| 0 <= k < pool.len() ==> type_of(#[trigger] pool[k]) == ty,
        g.false_pair(pool, rng) matches Some(info) && tells(
            g,
            step,
            None,
            to,
            g.pair_text(role, info),
        ),
    ensures
        tells_some_pair(g, step, to, role, ty),
{
    let n = g.seats.len();
    let (order, r1) = rng.order(n);
    let (k, r2) = r1.choice(pool.len());
    draws_are_in_range(rng, n);
    draws_are_in_range(r1, pool.len());
    let i = order[0] as int;
    let j = order[1] as int;
    assert(order[0] != order[1]);
    found_where_it_stands(g.seats, i);
    found_where_it_stands(g.seats, j);
    let c = pool[k];
    let info = g.false_pair(pool, rng)->0;
    assert(g.pair_text(role, info) == pair_words(role, g.seats[i], g.seats[j], c));
    assert(tells(g, step, None, to, pair_words(role, g.seats[i], g.seats[j], c)));
}

proof fn kept_kinds()
    ensures
        forall|k: int|
            0 <= k < townsfolk_pool().len() ==> type_of(#[trigger] townsfolk_pool()[k])
                == CharacterType::Townsfolk,
        forall|k: int|
            0 <= k < outsiders_pool().len() ==> type_of(#[trigger] outsiders_pool()[k])
                == CharacterType::Outsider,
        forall|k: int|
            0 <= k < minions_pool().len() ==> type_of(#[trigger] minions_pool()[k])
                == CharacterType::Minion,
{
}

/// A Washerwoman that does not work is still told of two different players and a Townsfolk, a
/// Librarian of an Outsider and an Investigator of a Minion, even where none is in play.
pub proof fn disabled_roles_are_told_of_a_pair(g: GameView, w: int)
    requires
        distinct_ids(g.seats),
        2 <= g.seats.len() <= usize::MAX,
        0 <= w < g.seats.len(),
        !works(g.seats[w]),
    ensures
        ({
            let id = g.seats[w].id;
            &&& tells_some_pair(
                g,
                NightStep::Washerwoman { seat: id },
                id,
                "Washerwoman"@,
                CharacterType::Townsfolk,
            )
            &&& tells_some_pair(
                g,
                NightStep::Librarian { seat: id },
                id,
                "Librarian"@,
                CharacterType::Outsider,
            )
            &&& tells_some_pair(
                g,
                NightStep::Investigator { seat: id },
                id,
                "Investigator"@,
                CharacterType::Minion,
            )
        }),
{
    washerwoman_is_told(g, w);
    librarian_is_told(g, w);
    investigator_is_told(g, w);
}

proof fn washerwoman_is_told(g: GameView, w: int)
    requires
        distinct_ids(g.seats),
        2 <= g.seats.len() <= usize::MAX,
        0 <= w < g.seats.len(),
        !works(g.seats[w]),
    ensures
        tells_some_pair(
            g,
            NightStep::Washerwoman { seat: g.seats[w].id },
            g.seats[w].id,
            "Washerwoman"@,
            CharacterType::Townsfolk,
        ),
{
    let id = g.seats[w].id;
    let step = NightStep::Washerwoman { seat: id };
    let rng = g.night_stream("washerwoman"@ + ":c"@);
    kept_kinds();
    found_where_it_stands(g.seats, w);
    let text = g.pair_text("Washerwoman"@, g.false_pair(townsfolk_pool(), rng)->0);
    assert(g.night_info(step, None) == Ok::<
        Option<(GameView, SeatId, Seq<char>)>,
        GameError,
    >(Some((g, id, text)))) by {
        reveal(GameView::night_info);
    }
    assert(tells(g, step, None, id, text));
    a_drawn_pair_is_told(
        g,
        step,
        id,
        "Washerwoman"@,
        CharacterType::Townsfolk,
        townsfolk_pool(),
        rng,
    );
}

proof fn librarian_is_told(g: GameView, w: int)
    requires
        distinct_ids(g.seats),
        2 <= g.seats.len() <= usize::MAX,
        0 <= w < g.seats.len(),
        !works(g.seats[w]),
    ensures
        tells_some_pair(
            g,
            NightStep::Librarian { seat: g.seats[w].id },
            g.seats[w].id,
            "Librarian"@,
            CharacterType::Outsider,
        ),
{
    let id = g.seats[w].id;
    let step = NightStep::Librarian { seat: id };
    let rng = g.night_stream("librarian"@ + ":c"@);
    kept_kinds();
    found_where_it_stands(g.seats, w);
    let text = g.pair_text("Librarian"@, g.false_pair(outsiders_pool(), rng)->0);
    assert(g.night_info(step, None) == Ok::<
        Option<(GameView, SeatId, Seq<char>)>,
        GameError,
    >(Some((g, id, text)))) by {
        reveal(GameView::night_info);
    }
    assert(tells(g, step, None, id, text));
    a_drawn_pair_is_told(
        g,
        step,
        id,
        "Librarian"@,
        CharacterType::Outsider,
        outsiders_pool(),
        rng,
    );
}

proof fn investigator_is_told(g: GameView, w: int)
    requires
        distinct_ids(g.seats),
        2 <= g.seats.len() <= usize::MAX,
        0 <= w < g.seats.len(),
        !works(g.seats[w]),
    ensures
        tells_some_pair(
            g,
            NightStep::Investigator { seat: g.seats[w].id },
            g.seats[w].id,
            "Investigator"@,
            CharacterType::Minion,
        ),
{
    let id = g.seats[w].id;
    let step = NightStep::Investigator { seat: id };
    let rng = g.night_stream("investigator"@ + ":c"@);
    kept_kinds();
    found_where_it_stands(g.seats, w);
    let text = g.pair_text("Investigator"@, g.false_pair(minions_pool(), rng)->0);
    assert(g.night_info(step, None) == Ok::<
        Option<(GameView, SeatId, Seq<char>)>,
        GameError,
    >(Some((g, id, text)))) by {
        reveal(GameView::night_info);
    }
    assert(tells(g, step, None, id, text));
    a_drawn_pair_is_told(
        g,
        step,
        id,
        "Investigator"@,
        CharacterType::Minion,
        minions_pool(),
        rng,
    );
}

proof fn false_grimoires_hide_the_truth(a: Seq<Seat>, b: Seq<Seat>, rng: Substream)
    requires
        a.len() == b.len(),
        forall|i: int|
            0 <= i < a.len() ==> (#[trigger] b[i]) == (Seat {
                true_character: b[i].true_character,
                believed_character: b[i].believed_character,
                ..a[i]
            }),
    ensures
        fake_lines(a, rng) == fake_lines(b, rng),
        fake_lines(a, rng).0.len() == a.len() + 1,
    decreases a.len(),
{
    if a.len() > 0 {
        let last = a.len() - 1;
        assert forall|i: int| 0 <= i < last implies (#[trigger] b.drop_last()[i]) == (Seat {
            true_character: b.drop_last()[i].true_character,
            believed_character: b.drop_last()[i].believed_character,
            ..a.drop_last()[i]
        }) by {
            assert(b.drop_last()[i] == b[i] && a.drop_last()[i] == a[i]);
        }
        false_grimoires_hide_the_truth(a.drop_last(), b.drop_last(), rng);
        assert(b[last] == b.last() && a[last] == a.last());
    }
}

/// A Spy that does not work sees a Grimoire that does not depend on who anybody is or believes to
/// be.
pub proof fn disabled_spies_learn_nothing(g: GameView, h: GameView, s: int)
    requires
        distinct_ids(g.seats),
        0 <= s < g.seats.len(),
        !works(g.seats[s]),
        h == (GameView { seats: h.seats, ..g }),
        h.seats.len() == g.seats.len(),
        forall|i: int|
            0 <= i < g.seats.len() ==> (#[trigger] h.seats[i]) == (Seat {
                true_character: h.seats[i].true_character,
                believed_character: h.seats[i].believed_character,
                ..g.seats[i]
            }),
    ensures
        told_by(g, NightStep::Spy { seat: g.seats[s].id }, None) == told_by(
            h,
            NightStep::Spy { seat: g.seats[s].id },
            None,
        ),
        told_by(g, NightStep::Spy { seat: g.seats[s].id }, None) is Some,
{
    assert forall|i: int, j: int| 0 <= i < j < h.seats.len() implies h.seats[i].id
        != h.seats[j].id by {
        assert(g.seats[i].id != g.seats[j].id);
    }
    found_where_it_stands(g.seats, s);
    found_where_it_stands(h.seats, s);
    let id = g.seats[s].id;
    assert(h.seats[s].id == id);
    false_grimoires_hide_the_truth(g.seats, h.seats, g.night_stream("spy_lie:c"@));
    assert(g.spy_text(id) == h.spy_text(id));
    spies_are_told(g, id);
    spies_are_told(h, id);
}

proof fn spies_are_told(g: GameView, id: SeatId)
    ensures
        told_by(g, NightStep::Spy { seat: id }, None) == Some(
            seq![(id, PrivateMessageView::NightResult { text: g.spy_text(id) })],
        ),
{
    reveal(GameView::night_info);
}

} // verus!
