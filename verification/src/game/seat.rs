//! One seat of the circle and its Grimoire markers.

use vstd::prelude::*;
use crate::game::ids::SeatId;
use crate::roles::Character;

verus! {

#[derive(Debug, Clone)]
pub struct Seat {
    pub id: SeatId,
    pub display_name: String,
    pub alive: bool,
    /// Dead players: one remaining vote for the whole game.
    pub ghost_vote_available: bool,
    /// True character in the Grimoire.
    pub true_character: Option<Character>,
    /// Drunk face; `None` if player knows their true character label.
    pub believed_character: Option<Character>,
    pub poisoned: bool,
    pub is_drunk_outsider: bool,
    pub monk_protected_tonight: bool,
    pub slayer_used: bool,
    pub virgin_ability_used: bool,
    /// Butler master for today's voting restriction.
    pub butler_master: Option<SeatId>,
}

impl Seat {
    /// A fresh living seat without a character.
    pub open spec fn fresh(id: SeatId, display_name: String) -> Seat {
        Seat {
            id,
            display_name,
            alive: true,
            ghost_vote_available: true,
            true_character: None,
            believed_character: None,
            poisoned: false,
            is_drunk_outsider: false,
            monk_protected_tonight: false,
            slayer_used: false,
            virgin_ability_used: false,
            butler_master: None,
        }
    }

    /// What the player at this seat is shown: the face where there is one.
    pub open spec fn face(self) -> Option<Character> {
        if self.believed_character is Some {
            self.believed_character
        } else {
            self.true_character
        }
    }

    /// Poisoned or drunk: the ability does not work.
    pub open spec fn disabled(self) -> bool {
        self.poisoned || self.is_drunk_outsider
    }

    pub fn new(id: SeatId, display_name: String) -> (s: Seat)
        ensures
            s == Seat::fresh(id, display_name),
    {
        Seat {
            id,
            display_name,
            alive: true,
            ghost_vote_available: true,
            true_character: None,
            believed_character: None,
            poisoned: false,
            is_drunk_outsider: false,
            monk_protected_tonight: false,
            slayer_used: false,
            virgin_ability_used: false,
            butler_master: None,
        }
    }

    /// Character string shown in private state (Drunk sees face).
    pub fn visible_character(&self) -> (c: Option<Character>)
        ensures
            c == self.face(),
    {
        match self.believed_character {
            Some(c) => Some(c),
            None => self.true_character,
        }
    }

    /// Whether the ability of this seat is switched off (poisoned or drunk).
    pub fn ability_disabled(&self) -> (b: bool)
        ensures
            b == self.disabled(),
    {
        self.poisoned || self.is_drunk_outsider
    }
}

/// Index of the first seat with this id.
pub open spec fn seat_index(seats: Seq<Seat>, id: SeatId) -> Option<int>
    decreases seats.len(),
{
    if seats.len() == 0 {
        None
    } else {
        match seat_index(seats.drop_last(), id) {
            Some(i) => Some(i),
            None => if seats.last().id == id { Some(seats.len() - 1) } else { None },
        }
    }
}

/// The first seat with this id.
pub open spec fn seat_of(seats: Seq<Seat>, id: SeatId) -> Option<Seat> {
    match seat_index(seats, id) {
        Some(i) => Some(seats[i]),
        None => None,
    }
}

/// `seats` with the first seat of this id replaced by `seat`.
pub open spec fn with_seat(seats: Seq<Seat>, id: SeatId, seat: Seat) -> Seq<Seat> {
    match seat_index(seats, id) {
        Some(i) => seats.update(i, seat),
        None => seats,
    }
}

/// How many seats are alive.
pub open spec fn living(seats: Seq<Seat>) -> nat
    decreases seats.len(),
{
    if seats.len() == 0 {
        0
    } else {
        living(seats.drop_last()) + if seats.last().alive { 1nat } else { 0nat }
    }
}

/// How many seats are alive, as the engine counts them (the count stops at `u32::MAX`).
pub open spec fn head_count(seats: Seq<Seat>) -> u32 {
    if living(seats) < u32::MAX { living(seats) as u32 } else { u32::MAX }
}

/// The ids of the seats that satisfy `keep`, in circle order.
pub open spec fn ids_where(seats: Seq<Seat>, keep: spec_fn(Seat) -> bool) -> Seq<SeatId>
    decreases seats.len(),
{
    if seats.len() == 0 {
        seq![]
    } else {
        let front = ids_where(seats.drop_last(), keep);
        if keep(seats.last()) { front.push(seats.last().id) } else { front }
    }
}

/// `sorted` with `id` put behind every smaller or equal id.
pub open spec fn insert_ascending(sorted: Seq<SeatId>, id: SeatId) -> Seq<SeatId>
    decreases sorted.len(),
{
    if sorted.len() == 0 || sorted.last().0 <= id.0 {
        sorted.push(id)
    } else {
        insert_ascending(sorted.drop_last(), id).push(sorted.last())
    }
}

/// `ids` in ascending order.
pub open spec fn ascending(ids: Seq<SeatId>) -> Seq<SeatId>
    decreases ids.len(),
{
    if ids.len() == 0 {
        seq![]
    } else {
        insert_ascending(ascending(ids.drop_last()), ids.last())
    }
}

/// The index is that of the first seat with the id, and there is one exactly when some
/// seat has the id.
pub proof fn seat_index_is_first(seats: Seq<Seat>, id: SeatId)
    ensures
        match seat_index(seats, id) {
            Some(i) => 0 <= i < seats.len() && seats[i].id == id && (forall|k: int|
                0 <= k < i ==> seats[k].id != id),
            None => forall|k: int| 0 <= k < seats.len() ==> seats[k].id != id,
        },
    decreases seats.len(),
{
    if seats.len() > 0 {
        let front = seats.drop_last();
        seat_index_is_first(front, id);
        match seat_index(front, id) {
            Some(i) => {
                assert(front[i] == seats[i]);
                assert forall|k: int| 0 <= k < i implies seats[k].id != id by {
                    assert(front[k] == seats[k]);
                }
            },
            None => {
                assert forall|k: int| 0 <= k < seats.len() - 1 implies seats[k].id != id by {
                    assert(front[k] == seats[k]);
                }
            },
        }
    }
}

/// Looking a seat up goes by the ids alone.
pub proof fn seat_index_by_ids(a: Seq<Seat>, b: Seq<Seat>, id: SeatId)
    requires
        a.len() == b.len(),
        forall|k: int| 0 <= k < a.len() ==> (#[trigger] a[k]).id == b[k].id,
    ensures
        seat_index(a, id) == seat_index(b, id),
{
    seat_index_is_first(a, id);
    seat_index_is_first(b, id);
    if let Some(i) = seat_index(a, id) {
        assert(b[i].id == id);
        if let Some(j) = seat_index(b, id) {
            assert(a[j].id == id);
        }
    } else if let Some(j) = seat_index(b, id) {
        assert(a[j].id == id);
    }
}

/// Position of the first seat with this id.
pub fn find_seat(seats: &Vec<Seat>, id: SeatId) -> (r: Option<usize>)
    ensures
        match r {
            Some(i) => i < seats.len() && seats@[i as int].id == id && seat_index(seats@, id)
                == Some(i as int),
            None => seat_index(seats@, id) is None,
        },
{
    proof {
        seat_index_is_first(seats@, id);
    }
    let mut i: usize = 0;
    while i < seats.len()
        invariant
            i <= seats.len(),
            forall|k: int| 0 <= k < i ==> seats@[k].id != id,
            match seat_index(seats@, id) {
                Some(j) => 0 <= j < seats.len() && seats@[j].id == id && (forall|k: int|
                    0 <= k < j ==> seats@[k].id != id),
                None => forall|k: int| 0 <= k < seats.len() ==> seats@[k].id != id,
            },
        decreases seats.len() - i,
    {
        if seats[i].id == id {
            return Some(i);
        }
        i += 1;
    }
    None
}

proof fn insert_ascending_keeps(sorted: Seq<SeatId>, id: SeatId)
    ensures
        insert_ascending(sorted, id).to_multiset() == sorted.to_multiset().insert(id),
        insert_ascending(sorted, id).len() == sorted.len() + 1,
        (forall|i: int, j: int| 0 <= i < j < sorted.len() ==> sorted[i].0 <= sorted[j].0) ==> (
        forall|i: int, j: int|
            0 <= i < j < sorted.len() + 1 ==> insert_ascending(sorted, id)[i].0
                <= insert_ascending(sorted, id)[j].0),
        forall|k: int|
            0 <= k < sorted.len() + 1 ==> insert_ascending(sorted, id)[k] == id
                || sorted.contains(#[trigger] insert_ascending(sorted, id)[k]),
    decreases sorted.len(),
{
    broadcast use vstd::seq_lib::group_to_multiset_ensures;

    if sorted.len() == 0 || sorted.last().0 <= id.0 {
    } else {
        let front = sorted.drop_last();
        insert_ascending_keeps(front, id);
        assert(sorted =~= front.push(sorted.last()));
        let r = insert_ascending(sorted, id);
        assert(r.to_multiset() =~= sorted.to_multiset().insert(id));
        assert forall|k: int| 0 <= k < r.len() implies r[k] == id || sorted.contains(r[k]) by {
            if k == r.len() - 1 {
                assert(r[k] == sorted[sorted.len() - 1]);
            } else {
                assert(r[k] == insert_ascending(front, id)[k]);
                if r[k] != id {
                    let m = choose|m: int| 0 <= m < front.len() && front[m] == r[k];
                    assert(sorted[m] == r[k]);
                }
            }
        }
        if forall|i: int, j: int| 0 <= i < j < sorted.len() ==> sorted[i].0 <= sorted[j].0 {
            assert forall|i: int, j: int| 0 <= i < j < front.len() implies front[i].0
                <= front[j].0 by {
                assert(sorted[i].0 <= sorted[j].0);
            }
            assert forall|i: int, j: int| 0 <= i < j < r.len() implies r[i].0 <= r[j].0 by {
                if j == r.len() - 1 {
                    assert(r[i] == insert_ascending(front, id)[i]);
                    if r[i] != id {
                        let m = choose|m: int| 0 <= m < front.len() && front[m] == r[i];
                        assert(sorted[m].0 <= sorted[sorted.len() - 1].0);
                    }
                } else {
                    assert(r[i] == insert_ascending(front, id)[i]);
                    assert(r[j] == insert_ascending(front, id)[j]);
                }
            }
        }
    }
}

/// Sorting keeps every id as often as it occurs, and orders them.
pub proof fn ascending_sorts(ids: Seq<SeatId>)
    ensures
        ascending(ids).to_multiset() == ids.to_multiset(),
        ascending(ids).len() == ids.len(),
        forall|i: int, j: int|
            0 <= i < j < ids.len() ==> ascending(ids)[i].0 <= ascending(ids)[j].0,
    decreases ids.len(),
{
    broadcast use vstd::seq_lib::group_to_multiset_ensures;

    if ids.len() > 0 {
        ascending_sorts(ids.drop_last());
        insert_ascending_keeps(ascending(ids.drop_last()), ids.last());
        assert(ids =~= ids.drop_last().push(ids.last()));
    } else {
        assert(ids =~= seq![]);
    }
}

/// Sort ids in ascending order.
pub fn sort_ascending(ids: &Vec<SeatId>) -> (r: Vec<SeatId>)
    ensures
        r@ == ascending(ids@),
        r@.len() == ids@.len(),
{
    let mut r: Vec<SeatId> = Vec::new();
    let mut i: usize = 0;
    while i < ids.len()
        invariant
            i <= ids.len(),
            r@ == ascending(ids@.take(i as int)),
            r@.len() == i,
        decreases ids.len() - i,
    {
        let id = ids[i];
        let ghost sorted = r@;
        let mut at: usize = r.len();
        proof {
            assert(sorted.take(at as int) =~= sorted);
            assert(sorted.skip(at as int) =~= seq![]);
            assert(insert_ascending(sorted, id) =~= insert_ascending(sorted.take(at as int), id)
                + sorted.skip(at as int));
        }
        while at > 0 && r[at - 1].0 > id.0
            invariant
                at <= r.len(),
                r@ == sorted,
                insert_ascending(sorted, id) == insert_ascending(sorted.take(at as int), id)
                    + sorted.skip(at as int),
            decreases at,
        {
            proof {
                let shown = sorted.take(at as int);
                assert(shown.drop_last() =~= sorted.take(at - 1));
                assert(insert_ascending(shown, id) + sorted.skip(at as int)
                    =~= insert_ascending(sorted.take(at - 1), id) + sorted.skip(at - 1));
            }
            at -= 1;
        }
        r.insert(at, id);
        assert(r@ =~= insert_ascending(sorted.take(at as int), id) + sorted.skip(at as int));
        i += 1;
        assert(ids@.take(i as int).drop_last() =~= ids@.take(i - 1));
    }
    assert(ids@.take(i as int) =~= ids@);
    r
}

/// Count the living.
pub fn count_living(seats: &Vec<Seat>) -> (n: u32)
    ensures
        n == head_count(seats@),
{
    let mut n: u32 = 0;
    let mut i: usize = 0;
    while i < seats.len()
        invariant
            i <= seats.len(),
            n == head_count(seats@.take(i as int)),
        decreases seats.len() - i,
    {
        if seats[i].alive {
            n = n.saturating_add(1);
        }
        i += 1;
        assert(seats@.take(i as int).drop_last() =~= seats@.take(i - 1));
    }
    assert(seats@.take(i as int) =~= seats@);
    n
}

/// The living are at most as many as the seats.
pub proof fn living_bounded(seats: Seq<Seat>)
    ensures
        living(seats) <= seats.len(),
    decreases seats.len(),
{
    if seats.len() > 0 {
        living_bounded(seats.drop_last());
    }
}

} // verus!
