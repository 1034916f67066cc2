//! Bag composition, character selection, and setup options.

use crate::error::GameError;
use crate::game::ids::SeatId;
use crate::game::st_policy::{RegistrationMode, StChoiceMode};
use crate::game::state::RoleAssignment;
use crate::rng::{is_order, SeededRng, Substream};
use crate::roles::{
    all_good, all_minions, all_outsiders, all_townsfolk, good_pool, minions_pool, outsiders_pool,
    pools_partition_the_sheet, team_of, townsfolk_pool, type_of, Character, CharacterType, Team,
};
use vstd::prelude::*;

verus! {

/// Base (pre-modifier) counts for Trouble Brewing.
#[derive(Debug, Clone, Copy, PartialEq, Eq, Structural)]
pub struct Composition {
    pub townsfolk: u8,
    pub outsiders: u8,
    pub minions: u8,
    pub demons: u8,
}

/// Host options for starting a game.
#[derive(Debug, Clone)]
pub struct StartOpts {
    /// Full seat overrides for tests / scripted evals. Hard-fail if no Imp.
    pub assignments: Option<Vec<RoleAssignment>>,
    /// Faces for Drunk seats, in place of the drawn ones.
    pub drunk_faces: Option<Vec<(SeatId, Character)>>,
    /// The Fortune Teller's red herring, in place of the drawn one.
    pub red_herring: Option<SeatId>,
    /// The Demon's three bluffs, in place of the drawn ones.
    pub demon_bluffs: Option<Vec<Character>>,
    /// Spy/Recluse registration policy.
    pub registration_mode: RegistrationMode,
    /// Who makes the Storyteller's choices.
    pub st_choice_mode: StChoiceMode,
}

impl Default for StartOpts {
    fn default() -> (o: StartOpts)
        ensures
            o == (StartOpts {
                assignments: None,
                drunk_faces: None,
                red_herring: None,
                demon_bluffs: None,
                registration_mode: RegistrationMode::Random,
                st_choice_mode: StChoiceMode::HostFirst,
            }),
    {
        StartOpts {
            assignments: None,
            drunk_faces: None,
            red_herring: None,
            demon_bluffs: None,
            registration_mode: RegistrationMode::Random,
            st_choice_mode: StChoiceMode::HostFirst,
        }
    }
}

/// Result of sampling a bag and assigning seats.
#[derive(Debug, Clone)]
pub struct BagResult {
    /// Seat order assignments with optional Drunk face.
    pub assignments: Vec<RoleAssignment>,
    pub red_herring: Option<SeatId>,
    pub demon_bluffs: Vec<Character>,
    /// Characters placed in the bag (order before seat shuffle is undefined).
    pub bag_set: Vec<Character>,
}

/// A dealt bag as plain values.
pub struct BagView {
    pub assignments: Seq<RoleAssignment>,
    pub red_herring: Option<SeatId>,
    pub demon_bluffs: Seq<Character>,
    pub bag_set: Seq<Character>,
}

impl View for BagResult {
    type V = BagView;

    open spec fn view(&self) -> BagView {
        BagView {
            assignments: self.assignments@,
            red_herring: self.red_herring,
            demon_bluffs: self.demon_bluffs@,
            bag_set: self.bag_set@,
        }
    }
}

/// Table sizes that have a bag.
pub open spec fn playable(n: int) -> bool {
    5 <= n <= 15
}

/// The composition table. Outsiders go 0, 1 (5 and 6 players), then 0, 1, 2 for every three
/// further players, who add a Minion each time; one seat is the Demon's.
pub open spec fn composition_of(n: int) -> Composition {
    let outsiders = if n < 7 { n - 5 } else { (n - 7) % 3 };
    let minions = if n < 7 { 1 } else { 1 + (n - 7) / 3 };
    Composition {
        townsfolk: (n - outsiders - minions - 1) as u8,
        outsiders: outsiders as u8,
        minions: minions as u8,
        demons: 1,
    }
}

/// The composition of a table of `n`, if there is one.
pub open spec fn composition_if(n: int) -> Option<Composition> {
    if playable(n) { Some(composition_of(n)) } else { None }
}

/// There is a composition exactly for 5 to 15 players. It fills the table, with one Demon, and it
/// is that of the printed table.
pub proof fn compositions_fill_the_table(n: u8)
    ensures
        composition_if(n as int) is Some <==> 5 <= n <= 15,
        composition_if(n as int) matches Some(c) ==> {
            &&& c.townsfolk + c.outsiders + c.minions + c.demons == n
            &&& c.demons == 1
            &&& (c.townsfolk, c.outsiders, c.minions) == match n {
                5 => (3u8, 0u8, 1u8),
                6 => (3, 1, 1),
                7 => (5, 0, 1),
                8 => (5, 1, 1),
                9 => (5, 2, 1),
                10 => (7, 0, 2),
                11 => (7, 1, 2),
                12 => (7, 2, 2),
                13 => (9, 0, 3),
                14 => (9, 1, 3),
                _ => (9, 2, 3),
            }
        },
{
}

/// Base composition for `n` players (5–15): what [`try_composition`] finds for them.
pub fn composition(n: u8) -> (c: Composition)
    requires
        composition_if(n as int) is Some,
    ensures
        Some(c) == composition_if(n as int),
{
    match try_composition(n) {
        Some(c) => c,
        None => Composition { townsfolk: 0, outsiders: 0, minions: 0, demons: 0 },
    }
}

/// Fallible composition lookup.
pub fn try_composition(n: u8) -> (r: Option<Composition>)
    ensures
        r == composition_if(n as int),
{
    let (townsfolk, outsiders, minions, demons): (u8, u8, u8, u8) = match n {
        5 => (3, 0, 1, 1),
        6 => (3, 1, 1, 1),
        7 => (5, 0, 1, 1),
        8 => (5, 1, 1, 1),
        9 => (5, 2, 1, 1),
        10 => (7, 0, 2, 1),
        11 => (7, 1, 2, 1),
        12 => (7, 2, 2, 1),
        13 => (9, 0, 3, 1),
        14 => (9, 1, 3, 1),
        15 => (9, 2, 3, 1),
        _ => return None,
    };
    Some(Composition { townsfolk, outsiders, minions, demons })
}

// ---------------------------------------------------------------------------
// Drawing the bag
// ---------------------------------------------------------------------------

/// The items in the given order.
pub open spec fn reordered(items: Seq<Character>, order: Seq<usize>) -> Seq<Character> {
    Seq::new(order.len(), |i: int| items[order[i] as int])
}

/// `n` characters of a pool, drawn without replacement.
pub open spec fn sampled(rng: Substream, pool: Seq<Character>, n: int) -> Seq<Character> {
    reordered(pool, rng.order(pool.len()).0).take(n)
}

/// The Minions of the bag.
pub open spec fn bag_minions(rng: SeededRng, n: int) -> Seq<Character> {
    sampled(rng.stream("setup_minions"@), minions_pool(), composition_of(n).minions as int)
}

/// Outsiders that a Baron adds in place of Townsfolk.
pub open spec fn baron_shift(minions: Seq<Character>) -> int {
    if minions.contains(Character::Baron) { 2 } else { 0 }
}

/// The Outsiders of the bag.
pub open spec fn bag_outsiders(rng: SeededRng, n: int) -> Seq<Character> {
    sampled(
        rng.stream("setup_outsiders"@),
        outsiders_pool(),
        composition_of(n).outsiders + baron_shift(bag_minions(rng, n)),
    )
}

/// The Townsfolk of the bag.
pub open spec fn bag_townsfolk(rng: SeededRng, n: int) -> Seq<Character> {
    sampled(
        rng.stream("setup_townsfolk"@),
        townsfolk_pool(),
        composition_of(n).townsfolk - baron_shift(bag_minions(rng, n)),
    )
}

/// The whole bag: Townsfolk, Outsiders, Minions, the Imp.
pub open spec fn bag_of(rng: SeededRng, n: int) -> Seq<Character> {
    (bag_townsfolk(rng, n) + bag_outsiders(rng, n) + bag_minions(rng, n)).push(Character::Imp)
}

/// The characters dealt to the seats in order; every Drunk gets a drawn Townsfolk face.
pub open spec fn dealt(chars: Seq<Character>, faces: Substream) -> (Seq<RoleAssignment>, Substream)
    decreases chars.len(),
{
    if chars.len() == 0 {
        (seq![], faces)
    } else {
        let (front, rng) = dealt(chars.drop_last(), faces);
        let seat = SeatId((chars.len() - 1) as u8);
        let true_character = chars.last();
        if true_character == Character::Drunk {
            let (k, rest) = rng.below(townsfolk_pool().len());
            (
                front.push(
                    RoleAssignment {
                        seat,
                        true_character,
                        believed_character: Some(townsfolk_pool()[k]),
                    },
                ),
                rest,
            )
        } else {
            (
                front.push(RoleAssignment { seat, true_character, believed_character: None }),
                rng,
            )
        }
    }
}

/// The seats of good characters, in order.
pub open spec fn good_seats(assignments: Seq<RoleAssignment>) -> Seq<SeatId>
    decreases assignments.len(),
{
    if assignments.len() == 0 {
        seq![]
    } else {
        let front = good_seats(assignments.drop_last());
        if team_of(assignments.last().true_character) == Team::Good {
            front.push(assignments.last().seat)
        } else {
            front
        }
    }
}

/// The Fortune Teller's red herring: a drawn good seat when a Fortune Teller is in play.
pub open spec fn drawn_red_herring(
    rng: SeededRng,
    assignments: Seq<RoleAssignment>,
    bag_set: Seq<Character>,
) -> Option<SeatId> {
    let good = good_seats(assignments);
    if bag_set.contains(Character::FortuneTeller) && good.len() > 0 {
        Some(good[rng.stream("red_herring"@).below(good.len()).0])
    } else {
        None
    }
}

/// Good characters that are not in the bag, in sheet order.
pub open spec fn good_not_in(bag_set: Seq<Character>) -> Seq<Character> {
    good_pool().filter(|c: Character| !bag_set.contains(c))
}

/// Up to `n` items.
pub open spec fn up_to(items: Seq<Character>, n: int) -> Seq<Character> {
    if items.len() <= n { items } else { items.take(n) }
}

/// The Demon's bluffs: up to three drawn good characters that are not in the bag, from seven
/// players on.
pub open spec fn drawn_bluffs(rng: SeededRng, n: int, bag_set: Seq<Character>) -> Seq<Character> {
    if n < 7 {
        seq![]
    } else {
        let pool = good_not_in(bag_set);
        up_to(reordered(pool, rng.stream("demon_bluffs"@).order(pool.len()).0), 3)
    }
}

/// The bag of `n` players under a seed: drawn, shuffled onto the seats, with markers.
pub open spec fn drawn_bag(rng: SeededRng, n: int) -> BagView {
    let bag_set = bag_of(rng, n);
    let shuffled = reordered(bag_set, rng.stream("setup_assign"@).order(bag_set.len()).0);
    let assignments = dealt(shuffled, rng.stream("drunk_face"@)).0;
    BagView {
        assignments,
        red_herring: drawn_red_herring(rng, assignments, bag_set),
        demon_bluffs: drawn_bluffs(rng, n, bag_set),
        bag_set,
    }
}

/// Whether `chars` holds `c`.
pub fn holds_character(chars: &Vec<Character>, c: Character) -> (b: bool)
    ensures
        b == chars@.contains(c),
{
    let mut i: usize = 0;
    while i < chars.len()
        invariant
            i <= chars.len(),
            forall|k: int| 0 <= k < i ==> chars@[k] != c,
        decreases chars.len() - i,
    {
        if chars[i] == c {
            return true;
        }
        i += 1;
    }
    false
}

/// The items in the given order.
#[verifier::loop_isolation(false)]
pub fn reorder(items: &Vec<Character>, order: &Vec<usize>) -> (v: Vec<Character>)
    requires
        forall|i: int| 0 <= i < order@.len() ==> (#[trigger] order@[i]) < items@.len(),
    ensures
        v@ == reordered(items@, order@),
{
    let mut v: Vec<Character> = Vec::new();
    let mut i: usize = 0;
    while i < order.len()
        invariant
            i <= order.len(),
            v@.len() == i,
            forall|k: int| 0 <= k < i ==> #[trigger] v@[k] == items@[order@[k] as int],
        decreases order.len() - i,
    {
        v.push(items[order[i]]);
        i += 1;
    }
    assert(v@ =~= reordered(items@, order@));
    v
}

fn sample_n(rng: &mut Substream, pool: &Vec<Character>, n: usize) -> (v: Vec<Character>)
    requires
        n <= pool@.len(),
    ensures
        v@ == sampled(*old(rng), pool@, n as int),
        v@.len() == n,
        forall|ty: CharacterType| #[trigger]
            distinct_of_type(pool@, ty) ==> distinct_of_type(v@, ty),
{
    let order = rng.shuffled(pool.len());
    let mut v = reorder(pool, &order);
    v.truncate(n);
    proof {
        assert forall|ty: CharacterType| #[trigger]
            distinct_of_type(pool@, ty) implies distinct_of_type(v@, ty) by {
            sampling_keeps_kind(pool@, order@, n as int, ty);
        }
    }
    v
}

#[verifier::loop_isolation(false)]
fn deal(chars: &Vec<Character>, rng: &mut Substream) -> (v: Vec<RoleAssignment>)
    requires
        chars@.len() <= 256,
    ensures
        v@ == dealt(chars@, *old(rng)).0,
        forall|i: int| 0 <= i < v@.len() ==> face_ok(#[trigger] v@[i]) is Ok,
{
    let pool = all_townsfolk();
    let ghost start = *rng;
    let mut v: Vec<RoleAssignment> = Vec::new();
    let mut i: usize = 0;
    while i < chars.len()
        invariant
            i <= chars.len(),
            pool@ == townsfolk_pool(),
            pool@.len() == 13,
            (v@, *rng) == dealt(chars@.take(i as int), start),
            forall|k: int| 0 <= k < v@.len() ==> face_ok(#[trigger] v@[k]) is Ok,
        decreases chars.len() - i,
    {
        let seat = SeatId(i as u8);
        let ch = chars[i];
        assert(chars@.take(i + 1).drop_last() =~= chars@.take(i as int));
        if ch == Character::Drunk {
            let face = pool[rng.gen_below(pool.len())];
            v.push(
                RoleAssignment { seat, true_character: ch, believed_character: Some(face) },
            );
        } else {
            v.push(RoleAssignment::normal(seat, ch));
        }
        i += 1;
    }
    assert(chars@.take(i as int) =~= chars@);
    v
}

#[verifier::loop_isolation(false)]
fn list_good_seats(assignments: &Vec<RoleAssignment>) -> (v: Vec<SeatId>)
    ensures
        v@ == good_seats(assignments@),
{
    let mut v: Vec<SeatId> = Vec::new();
    let mut i: usize = 0;
    while i < assignments.len()
        invariant
            i <= assignments.len(),
            v@ == good_seats(assignments@.take(i as int)),
        decreases assignments.len() - i,
    {
        assert(assignments@.take(i + 1).drop_last() =~= assignments@.take(i as int));
        if assignments[i].true_character.team() == Team::Good {
            v.push(assignments[i].seat);
        }
        i += 1;
    }
    assert(assignments@.take(i as int) =~= assignments@);
    v
}

/// Red herring and bluffs for characters that are already on their seats.
pub fn setup_markers(
    rng: &SeededRng,
    n: u8,
    assignments: &Vec<RoleAssignment>,
    bag_set: &Vec<Character>,
) -> (r: (Option<SeatId>, Vec<Character>))
    ensures
        r.0 == drawn_red_herring(*rng, assignments@, bag_set@),
        r.1@ == drawn_bluffs(*rng, n as int, bag_set@),
        r.0 matches Some(seat) ==> good_seats(assignments@).contains(seat),
        n >= 7 ==> distinct_spares(r.1@, bag_set@),
{
    let mut red_herring: Option<SeatId> = None;
    if holds_character(bag_set, Character::FortuneTeller) {
        let good = list_good_seats(assignments);
        if good.len() > 0 {
            let mut hrng = rng.substream("red_herring");
            red_herring = Some(good[hrng.gen_below(good.len())]);
        }
    }
    let demon_bluffs = if n >= 7 {
        pick_demon_bluffs(rng, bag_set)
    } else {
        Vec::new()
    };
    (red_herring, demon_bluffs)
}

/// Build a bag for `n` seats using labeled substreams of `rng`.
///
/// Sample minions first; if Baron, outsiders += 2 and townsfolk -= 2; sample outsiders and
/// townsfolk; always include Imp; shuffle onto seats; assign Drunk faces uniformly among all 13
/// Townsfolk.
pub fn build_bag(rng: &SeededRng, n: u8) -> (r: Result<BagResult, GameError>)
    ensures
        match r {
            Ok(bag) => playable(n as int) && bag@ == drawn_bag(*rng, n as int) && legal_bag(
                bag@,
                n as int,
            ),
            Err(e) => !playable(n as int) && e == GameError::BadRequest(
                "player count must be between 5 and 15 inclusive",
            ),
        },
{
    let base = match try_composition(n) {
        Some(c) => c,
        None => return Err(
            GameError::BadRequest("player count must be between 5 and 15 inclusive"),
        ),
    };
    let mut need_tf: usize = base.townsfolk as usize;
    let mut need_out: usize = base.outsiders as usize;
    let need_min: usize = base.minions as usize;
    let mut min_rng = rng.substream("setup_minions");
    proof {
        pools_partition_the_sheet(Character::Imp);
        pool_kinds();
    }
    let mut minions = sample_n(&mut min_rng, &all_minions(), need_min);
    let ghost drawn_minions = minions@;
    if holds_character(&minions, Character::Baron) {
        need_out += 2;
        need_tf -= 2;
    }
    let mut out_rng = rng.substream("setup_outsiders");
    let mut outsiders = sample_n(&mut out_rng, &all_outsiders(), need_out);
    let ghost drawn_outsiders = outsiders@;
    let mut tf_rng = rng.substream("setup_townsfolk");
    let mut bag = sample_n(&mut tf_rng, &all_townsfolk(), need_tf);
    let ghost drawn_townsfolk = bag@;
    bag.append(&mut outsiders);
    bag.append(&mut minions);
    bag.push(Character::Imp);
    let bag_set = bag;
    assert(bag_set@ == bag_of(*rng, n as int));
    let mut assign_rng = rng.substream("setup_assign");
    let order = assign_rng.shuffled(bag_set.len());
    let shuffled = reorder(&bag_set, &order);
    let mut face_rng = rng.substream("drunk_face");
    let assignments = deal(&shuffled, &mut face_rng);
    let (red_herring, demon_bluffs) = setup_markers(rng, n, &assignments, &bag_set);
    proof {
        dealing_follows(shuffled@, rng.stream("drunk_face"@));
        drawn_bag_is_legal(
            drawn_townsfolk,
            drawn_outsiders,
            drawn_minions,
            n as int,
            order@,
            assignments@,
            red_herring,
            demon_bluffs@,
        );
    }
    Ok(BagResult { assignments, red_herring, demon_bluffs, bag_set })
}

#[verifier::loop_isolation(false)]
fn good_characters_not_in(bag_set: &Vec<Character>) -> (v: Vec<Character>)
    ensures
        v@ == good_not_in(bag_set@),
{
    let pool = all_good();
    let ghost keep = |c: Character| !bag_set@.contains(c);
    let mut v: Vec<Character> = Vec::new();
    let mut i: usize = 0;
    assert(v@ =~= pool@.take(0).filter(keep)) by {
        reveal(Seq::filter);
    }
    while i < pool.len()
        invariant
            i <= pool.len(),
            v@ == pool@.take(i as int).filter(keep),
        decreases pool.len() - i,
    {
        proof {
            assert(pool@.take(i + 1).drop_last() =~= pool@.take(i as int));
            reveal(Seq::filter);
        }
        if !holds_character(bag_set, pool[i]) {
            v.push(pool[i]);
        }
        i += 1;
    }
    assert(pool@.take(i as int) =~= pool@);
    v
}

fn pick_demon_bluffs(rng: &SeededRng, bag_set: &Vec<Character>) -> (v: Vec<Character>)
    ensures
        v@ == drawn_bluffs(*rng, 7, bag_set@),
        distinct_spares(v@, bag_set@),
{
    let pool = good_characters_not_in(bag_set);
    let mut brng = rng.substream("demon_bluffs");
    let order = brng.shuffled(pool.len());
    let mut v = reorder(&pool, &order);
    v.truncate(3);
    proof {
        assert forall|i: int| 0 <= i < v@.len() implies pool@.contains(#[trigger] v@[i]) by {
            assert(order@[i] < pool@.len());
            assert(v@[i] == pool@[order@[i] as int]);
        }
        if pool@.no_duplicates() {
            assert forall|i: int, j: int| 0 <= i < v@.len() && 0 <= j < v@.len() && i != j implies
                v@[i] != v@[j] by {
                assert(order@[i] != order@[j]);
                assert(order@[i] < pool@.len() && order@[j] < pool@.len());
            }
        }
    }
    v
}

// ---------------------------------------------------------------------------
// What a drawn bag is like
// ---------------------------------------------------------------------------

/// How many of the characters are of this kind.
pub open spec fn count_of_type(cs: Seq<Character>, ty: CharacterType) -> nat {
    cs.filter(|c: Character| type_of(c) == ty).len()
}

/// The bag holds `n` different characters in the numbers of the composition table, shifted by a
/// Baron, and the Imp.
pub open spec fn follows_table(bag_set: Seq<Character>, n: int) -> bool {
    let base = composition_of(n);
    let shift = baron_shift(bag_set);
    &&& bag_set.len() == n
    &&& bag_set.no_duplicates()
    &&& bag_set.contains(Character::Imp)
    &&& count_of_type(bag_set, CharacterType::Townsfolk) == base.townsfolk - shift
    &&& count_of_type(bag_set, CharacterType::Outsider) == base.outsiders + shift
    &&& count_of_type(bag_set, CharacterType::Minion) == base.minions
    &&& count_of_type(bag_set, CharacterType::Demon) == 1
}

/// Seat `i` is the `i`-th, exactly the Drunk has a face, and it is a Townsfolk's.
pub open spec fn well_dealt(assignments: Seq<RoleAssignment>) -> bool {
    forall|i: int|
        0 <= i < assignments.len() ==> (#[trigger] assignments[i]).seat == SeatId(i as u8)
            && face_ok(assignments[i]) is Ok
}

/// The characters on the seats are those of the bag, each once.
pub open spec fn deals_out(assignments: Seq<RoleAssignment>, bag_set: Seq<Character>) -> bool {
    &&& assignments.len() == bag_set.len()
    &&& forall|c: Character|
        bag_set.contains(c) <==> exists|i: int|
            0 <= i < assignments.len() && (#[trigger] assignments[i]).true_character == c
    &&& forall|i: int, j: int|
        0 <= i < j < assignments.len() ==> assignments[i].true_character
            != assignments[j].true_character
}

/// The bluffs are different good characters outside the bag: three from seven players on, none
/// below.
pub open spec fn good_bluffs(bluffs: Seq<Character>, bag_set: Seq<Character>, n: int) -> bool {
    &&& bluffs.len() == if n < 7 { 0nat } else { 3nat }
    &&& bluffs.no_duplicates()
    &&& forall|i: int|
        0 <= i < bluffs.len() ==> team_of(#[trigger] bluffs[i]) == Team::Good && !bag_set.contains(
            bluffs[i],
        )
}

/// There is a red herring exactly if the Fortune Teller is in play, and it is a good seat.
pub open spec fn good_herring(bag: BagView) -> bool {
    &&& bag.red_herring is Some <==> bag.bag_set.contains(Character::FortuneTeller)
    &&& bag.red_herring matches Some(seat) ==> seat.0 < bag.assignments.len() && team_of(
        bag.assignments[seat.0 as int].true_character,
    ) == Team::Good
}

/// Up to three items of the spare good characters, none twice where none is twice there.
pub open spec fn distinct_spares(bluffs: Seq<Character>, bag_set: Seq<Character>) -> bool {
    let spare = good_not_in(bag_set);
    &&& bluffs.len() == if spare.len() < 3 { spare.len() } else { 3 }
    &&& forall|i: int| 0 <= i < bluffs.len() ==> spare.contains(#[trigger] bluffs[i])
    &&& spare.no_duplicates() ==> bluffs.no_duplicates()
}

/// A bag that can be played with.
pub open spec fn legal_bag(bag: BagView, n: int) -> bool {
    &&& follows_table(bag.bag_set, n)
    &&& well_dealt(bag.assignments)
    &&& deals_out(bag.assignments, bag.bag_set)
    &&& good_bluffs(bag.demon_bluffs, bag.bag_set, n)
    &&& good_herring(bag)
}

/// Different characters of one kind.
pub open spec fn distinct_of_type(cs: Seq<Character>, ty: CharacterType) -> bool {
    cs.no_duplicates() && forall|i: int| 0 <= i < cs.len() ==> type_of(#[trigger] cs[i]) == ty
}

proof fn sampling_keeps_kind(pool: Seq<Character>, order: Seq<usize>, n: int, ty: CharacterType)
    requires
        is_order(order, pool.len()),
        distinct_of_type(pool, ty),
        0 <= n <= pool.len(),
    ensures
        distinct_of_type(reordered(pool, order).take(n), ty),
{
    let v = reordered(pool, order).take(n);
    assert forall|i: int, j: int| 0 <= i < v.len() && 0 <= j < v.len() && i != j implies v[i]
        != v[j] by {
        assert(order[i] != order[j]);
        assert(order[i] < pool.len() && order[j] < pool.len());
    }
    assert forall|i: int| 0 <= i < v.len() implies type_of(#[trigger] v[i]) == ty by {
        assert(order[i] < pool.len());
    }
}

proof fn count_in_one_kind(cs: Seq<Character>, ty: CharacterType, counted: CharacterType)
    requires
        forall|i: int| 0 <= i < cs.len() ==> type_of(#[trigger] cs[i]) == ty,
    ensures
        count_of_type(cs, counted) == if counted == ty { cs.len() } else { 0 },
    decreases cs.len(),
{
    reveal(Seq::filter);
    if cs.len() > 0 {
        assert(type_of(cs[cs.len() - 1]) == ty);
        assert forall|i: int| 0 <= i < cs.drop_last().len() implies type_of(
            #[trigger] cs.drop_last()[i],
        ) == ty by {
            assert(cs[i] == cs.drop_last()[i]);
        }
        count_in_one_kind(cs.drop_last(), ty, counted);
    }
}

proof fn count_of_bag(
    tf: Seq<Character>,
    out: Seq<Character>,
    min: Seq<Character>,
    counted: CharacterType,
)
    requires
        distinct_of_type(tf, CharacterType::Townsfolk),
        distinct_of_type(out, CharacterType::Outsider),
        distinct_of_type(min, CharacterType::Minion),
    ensures
        count_of_type((tf + out + min).push(Character::Imp), counted) == match counted {
            CharacterType::Townsfolk => tf.len(),
            CharacterType::Outsider => out.len(),
            CharacterType::Minion => min.len(),
            CharacterType::Demon => 1,
        },
        (tf + out + min).push(Character::Imp).no_duplicates(),
        (tf + out + min).push(Character::Imp).contains(Character::Imp),
        (tf + out + min).push(Character::Imp).contains(Character::Baron) <==> min.contains(
            Character::Baron,
        ),
{
    let p = |c: Character| type_of(c) == counted;
    count_in_one_kind(tf, CharacterType::Townsfolk, counted);
    count_in_one_kind(out, CharacterType::Outsider, counted);
    count_in_one_kind(min, CharacterType::Minion, counted);
    Seq::filter_distributes_over_add(tf, out, p);
    Seq::filter_distributes_over_add(tf + out, min, p);
    (tf + out + min).lemma_filter_len_push(p, Character::Imp);
    let bag = (tf + out + min).push(Character::Imp);
    assert(bag[bag.len() - 1] == Character::Imp);
    assert forall|i: int| 0 <= i < bag.len() implies type_of(#[trigger] bag[i]) == (if i
        < tf.len() {
        CharacterType::Townsfolk
    } else if i < tf.len() + out.len() {
        CharacterType::Outsider
    } else if i < tf.len() + out.len() + min.len() {
        CharacterType::Minion
    } else {
        CharacterType::Demon
    }) by {
        if i < tf.len() {
            assert(bag[i] == tf[i]);
        } else if i < tf.len() + out.len() {
            assert(bag[i] == out[i - tf.len()]);
        } else if i < tf.len() + out.len() + min.len() {
            assert(bag[i] == min[i - tf.len() - out.len()]);
        }
    }
    assert forall|i: int, j: int| 0 <= i < bag.len() && 0 <= j < bag.len() && i != j implies bag[i]
        != bag[j] by {
        assert(type_of(bag[i]) == type_of(bag[i]) && type_of(bag[j]) == type_of(bag[j]));
        if i < tf.len() && j < tf.len() {
            assert(tf[i] != tf[j]);
        } else if tf.len() <= i < tf.len() + out.len() && tf.len() <= j < tf.len() + out.len() {
            assert(out[i - tf.len()] != out[j - tf.len()]);
        } else if tf.len() + out.len() <= i < bag.len() - 1 && tf.len() + out.len() <= j < bag.len()
            - 1 {
            assert(min[i - tf.len() - out.len()] != min[j - tf.len() - out.len()]);
        }
    }
    if min.contains(Character::Baron) {
        let k = choose|k: int| 0 <= k < min.len() && min[k] == Character::Baron;
        assert(bag[tf.len() + out.len() + k] == Character::Baron);
    }
    if bag.contains(Character::Baron) {
        let k = choose|k: int| 0 <= k < bag.len() && bag[k] == Character::Baron;
        assert(type_of(bag[k]) == CharacterType::Minion);
        assert(min[k - tf.len() - out.len()] == Character::Baron);
    }
}

/// The pools hold different characters of their kind.
proof fn pool_kinds()
    ensures
        distinct_of_type(townsfolk_pool(), CharacterType::Townsfolk),
        distinct_of_type(outsiders_pool(), CharacterType::Outsider),
        distinct_of_type(minions_pool(), CharacterType::Minion),
{
    pools_partition_the_sheet(Character::Imp);
    let all = crate::roles::full_pool();
    assert forall|i: int, j: int| 0 <= i < 13 && 0 <= j < 13 && i != j implies townsfolk_pool()[i]
        != townsfolk_pool()[j] by {
        assert(all[i] == townsfolk_pool()[i] && all[j] == townsfolk_pool()[j]);
    }
    assert forall|i: int, j: int| 0 <= i < 4 && 0 <= j < 4 && i != j implies outsiders_pool()[i]
        != outsiders_pool()[j] by {
        assert(all[13 + i] == outsiders_pool()[i] && all[13 + j] == outsiders_pool()[j]);
    }
    assert forall|i: int, j: int| 0 <= i < 4 && 0 <= j < 4 && i != j implies minions_pool()[i]
        != minions_pool()[j] by {
        assert(all[17 + i] == minions_pool()[i] && all[17 + j] == minions_pool()[j]);
    }
}

/// An order of `0..n` reaches every index.
pub proof fn order_reaches_all(order: Seq<usize>, n: nat, k: int)
    requires
        is_order(order, n),
        0 <= k < n,
    ensures
        exists|i: int| 0 <= i < n && #[trigger] order[i] == k,
{
    let image = order.map_values(|x: usize| x as int);
    assert(image.no_duplicates());
    image.unique_seq_to_set();
    vstd::set_lib::lemma_int_range(0, n as int);
    let range = vstd::set_lib::set_int_range(0, n as int);
    assert(image.to_set().subset_of(range)) by {
        assert forall|x: int| image.to_set().contains(x) implies range.contains(x) by {
            let i = choose|i: int| 0 <= i < image.len() && image[i] == x;
            assert(order[i] < n);
        }
    }
    vstd::set_lib::lemma_subset_equality(image.to_set(), range);
    assert(image.to_set().contains(k));
    let i = choose|i: int| 0 <= i < image.len() && image[i] == k;
    assert(order[i] == k);
}

proof fn dealing_follows(chars: Seq<Character>, faces: Substream)
    ensures
        dealt(chars, faces).0.len() == chars.len(),
        forall|i: int|
            0 <= i < chars.len() ==> (#[trigger] dealt(chars, faces).0[i]).true_character
                == chars[i] && dealt(chars, faces).0[i].seat == SeatId(i as u8),
    decreases chars.len(),
{
    if chars.len() > 0 {
        dealing_follows(chars.drop_last(), faces);
    }
}

proof fn shuffled_bag_is_dealt_out(
    bag_set: Seq<Character>,
    order: Seq<usize>,
    assignments: Seq<RoleAssignment>,
)
    requires
        is_order(order, bag_set.len()),
        bag_set.no_duplicates(),
        assignments.len() == bag_set.len(),
        forall|i: int|
            0 <= i < bag_set.len() ==> (#[trigger] assignments[i]).true_character
                == bag_set[order[i] as int],
    ensures
        deals_out(assignments, bag_set),
{
    assert forall|c: Character|
        bag_set.contains(c) <==> exists|i: int|
            0 <= i < assignments.len() && (#[trigger] assignments[i]).true_character == c by {
        if bag_set.contains(c) {
            let k = choose|k: int| 0 <= k < bag_set.len() && bag_set[k] == c;
            order_reaches_all(order, bag_set.len(), k);
            let i = choose|i: int| 0 <= i < bag_set.len() && #[trigger] order[i] == k;
            assert(assignments[i].true_character == c);
        }
        if exists|i: int|
            0 <= i < assignments.len() && (#[trigger] assignments[i]).true_character == c {
            let i = choose|i: int|
                0 <= i < assignments.len() && (#[trigger] assignments[i]).true_character == c;
            assert(order[i] < bag_set.len());
            assert(bag_set[order[i] as int] == c);
        }
    }
    assert forall|i: int, j: int| 0 <= i < j < assignments.len() implies
        assignments[i].true_character != assignments[j].true_character by {
        assert(order[i] != order[j]);
        assert(order[i] < bag_set.len() && order[j] < bag_set.len());
    }
}

proof fn good_seats_are_good(assignments: Seq<RoleAssignment>)
    requires
        forall|i: int|
            0 <= i < assignments.len() ==> (#[trigger] assignments[i]).seat == SeatId(i as u8),
        assignments.len() <= 256,
    ensures
        forall|k: int|
            0 <= k < good_seats(assignments).len() ==> (#[trigger] good_seats(assignments)[k]).0
                < assignments.len() && team_of(
                assignments[good_seats(assignments)[k].0 as int].true_character,
            ) == Team::Good,
        (exists|i: int|
            0 <= i < assignments.len() && team_of((#[trigger] assignments[i]).true_character)
                == Team::Good) ==> good_seats(assignments).len() > 0,
    decreases assignments.len(),
{
    if assignments.len() > 0 {
        let front = assignments.drop_last();
        assert forall|i: int| 0 <= i < front.len() implies (#[trigger] front[i]).seat == SeatId(
            i as u8,
        ) by {
            assert(assignments[i] == front[i]);
        }
        good_seats_are_good(front);
        assert(assignments[assignments.len() - 1].seat == SeatId((assignments.len() - 1) as u8));
        if exists|i: int|
            0 <= i < assignments.len() && team_of((#[trigger] assignments[i]).true_character)
                == Team::Good {
            let i = choose|i: int|
                0 <= i < assignments.len() && team_of((#[trigger] assignments[i]).true_character)
                    == Team::Good;
            if i < front.len() {
                assert(front[i] == assignments[i]);
            }
        }
    }
}

proof fn filter_keeps_distinct(cs: Seq<Character>, keep: spec_fn(Character) -> bool)
    requires
        cs.no_duplicates(),
    ensures
        cs.filter(keep).no_duplicates(),
        forall|i: int|
            0 <= i < cs.filter(keep).len() ==> keep(#[trigger] cs.filter(keep)[i]) && cs.contains(
                cs.filter(keep)[i],
            ),
        cs.filter(keep).len() + cs.filter(|c: Character| !keep(c)).len() == cs.len(),
    decreases cs.len(),
{
    reveal(Seq::filter);
    if cs.len() > 0 {
        let front = cs.drop_last();
        filter_keeps_distinct(front, keep);
        let f = cs.filter(keep);
        assert forall|i: int| 0 <= i < f.len() implies keep(#[trigger] f[i]) && cs.contains(
            f[i],
        ) by {
            if i < front.filter(keep).len() {
                assert(f[i] == front.filter(keep)[i]);
                let k = choose|k: int| 0 <= k < front.len() && front[k] == f[i];
                assert(cs[k] == f[i]);
            } else {
                assert(f[i] == cs[cs.len() - 1]);
            }
        }
        assert forall|i: int, j: int| 0 <= i < f.len() && 0 <= j < f.len() && i != j implies f[i]
            != f[j] by {
            let n = front.filter(keep).len() as int;
            if i == n {
                assert(front.contains(f[j]));
                let k = choose|k: int| 0 <= k < front.len() && front[k] == f[j];
                assert(cs[k] != cs[cs.len() - 1]);
            } else if j == n {
                assert(front.contains(f[i]));
                let k = choose|k: int| 0 <= k < front.len() && front[k] == f[i];
                assert(cs[k] != cs[cs.len() - 1]);
            }
        }
    }
}

/// At least three good characters stay outside a bag that has no more than fourteen.
proof fn three_bluffs_remain(bag_set: Seq<Character>)
    requires
        bag_set.no_duplicates(),
        bag_set.filter(|c: Character| team_of(c) == Team::Good).len() <= 14,
    ensures
        good_not_in(bag_set).len() >= 3,
        good_not_in(bag_set).no_duplicates(),
        forall|i: int|
            0 <= i < good_not_in(bag_set).len() ==> team_of(#[trigger] good_not_in(bag_set)[i])
                == Team::Good && !bag_set.contains(good_not_in(bag_set)[i]),
{
    let pool = good_pool();
    pools_partition_the_sheet(Character::Imp);
    assert forall|i: int, j: int| 0 <= i < pool.len() && 0 <= j < pool.len() && i != j implies
        pool[i] != pool[j] by {
        assert(crate::roles::full_pool()[i] == pool[i]);
        assert(crate::roles::full_pool()[j] == pool[j]);
    }
    let out = |c: Character| !bag_set.contains(c);
    let good = |c: Character| team_of(c) == Team::Good;
    filter_keeps_distinct(pool, out);
    filter_keeps_distinct(bag_set, good);
    let inside = pool.filter(|c: Character| !out(c));
    filter_keeps_distinct(pool, |c: Character| !out(c));
    let held = bag_set.filter(good);
    assert(inside.to_set().subset_of(held.to_set())) by {
        assert forall|c: Character| inside.to_set().contains(c) implies held.to_set().contains(
            c,
        ) by {
            let i = choose|i: int| 0 <= i < inside.len() && inside[i] == c;
            assert(!out(inside[i]) && pool.contains(inside[i]));
            let k = choose|k: int| 0 <= k < pool.len() && pool[k] == c;
            assert(team_of(c) == Team::Good);
            let m = choose|m: int| 0 <= m < bag_set.len() && bag_set[m] == c;
            bag_set.lemma_filter_contains(good, m);
        }
    }
    inside.unique_seq_to_set();
    held.unique_seq_to_set();
    vstd::seq_lib::seq_to_set_is_finite(held);
    vstd::set_lib::lemma_len_subset(inside.to_set(), held.to_set());
    let spare = good_not_in(bag_set);
    assert forall|i: int| 0 <= i < spare.len() implies team_of(#[trigger] spare[i]) == Team::Good
        && !bag_set.contains(spare[i]) by {
        assert(out(spare[i]) && pool.contains(spare[i]));
        let k = choose|k: int| 0 <= k < pool.len() && pool[k] == spare[i];
        assert(team_of(pool[k]) == Team::Good);
    }
}

proof fn drawn_bag_is_legal(
    tf: Seq<Character>,
    out: Seq<Character>,
    min: Seq<Character>,
    n: int,
    order: Seq<usize>,
    assignments: Seq<RoleAssignment>,
    red_herring: Option<SeatId>,
    demon_bluffs: Seq<Character>,
)
    requires
        playable(n),
        distinct_of_type(tf, CharacterType::Townsfolk),
        distinct_of_type(out, CharacterType::Outsider),
        distinct_of_type(min, CharacterType::Minion),
        tf.len() == composition_of(n).townsfolk - baron_shift(min),
        out.len() == composition_of(n).outsiders + baron_shift(min),
        min.len() == composition_of(n).minions,
        is_order(order, n as nat),
        assignments.len() == n,
        forall|i: int|
            0 <= i < n ==> (#[trigger] assignments[i]).seat == SeatId(i as u8)
                && assignments[i].true_character == (tf + out + min).push(
                Character::Imp,
            )[order[i] as int] && face_ok(assignments[i]) is Ok,
        red_herring matches Some(seat) ==> good_seats(assignments).contains(seat),
        red_herring is Some <==> (tf + out + min).push(Character::Imp).contains(
            Character::FortuneTeller,
        ) && good_seats(assignments).len() > 0,
        n < 7 ==> demon_bluffs.len() == 0,
        n >= 7 ==> distinct_spares(demon_bluffs, (tf + out + min).push(Character::Imp)),
    ensures
        legal_bag(
            BagView {
                assignments,
                red_herring,
                demon_bluffs,
                bag_set: (tf + out + min).push(Character::Imp),
            },
            n,
        ),
{
    let bag_set = (tf + out + min).push(Character::Imp);
    count_of_bag(tf, out, min, CharacterType::Townsfolk);
    count_of_bag(tf, out, min, CharacterType::Outsider);
    count_of_bag(tf, out, min, CharacterType::Minion);
    count_of_bag(tf, out, min, CharacterType::Demon);
    shuffled_bag_is_dealt_out(bag_set, order, assignments);
    good_seats_are_good(assignments);
    if let Some(seat) = red_herring {
        let k = choose|k: int|
            0 <= k < good_seats(assignments).len() && good_seats(assignments)[k] == seat;
        assert(good_seats(assignments)[k].0 < assignments.len());
    }
    if bag_set.contains(Character::FortuneTeller) {
        let i = choose|i: int|
            0 <= i < assignments.len() && (#[trigger] assignments[i]).true_character
                == Character::FortuneTeller;
        assert(team_of(assignments[i].true_character) == Team::Good);
    }
    if n >= 7 {
        good_part_is_small(tf, out, min);
        three_bluffs_remain(bag_set);
        assert forall|i: int| 0 <= i < demon_bluffs.len() implies team_of(
            #[trigger] demon_bluffs[i],
        ) == Team::Good && !bag_set.contains(demon_bluffs[i]) by {
            let spare = good_not_in(bag_set);
            let k = choose|k: int| 0 <= k < spare.len() && spare[k] == demon_bluffs[i];
            assert(team_of(spare[k]) == Team::Good);
        }
    }
}

proof fn count_good(cs: Seq<Character>)
    ensures
        cs.filter(|c: Character| team_of(c) == Team::Good).len() == count_of_type(
            cs,
            CharacterType::Townsfolk,
        ) + count_of_type(cs, CharacterType::Outsider),
    decreases cs.len(),
{
    reveal(Seq::filter);
    if cs.len() > 0 {
        count_good(cs.drop_last());
    }
}

proof fn good_part_is_small(tf: Seq<Character>, out: Seq<Character>, min: Seq<Character>)
    requires
        distinct_of_type(tf, CharacterType::Townsfolk),
        distinct_of_type(out, CharacterType::Outsider),
        distinct_of_type(min, CharacterType::Minion),
        tf.len() + out.len() <= 14,
    ensures
        (tf + out + min).push(Character::Imp).filter(
            |c: Character| team_of(c) == Team::Good,
        ).len() <= 14,
{
    count_good((tf + out + min).push(Character::Imp));
    count_of_bag(tf, out, min, CharacterType::Townsfolk);
    count_of_bag(tf, out, min, CharacterType::Outsider);
}

// ---------------------------------------------------------------------------
// Fixed assignments and overrides
// ---------------------------------------------------------------------------

/// Whether an assignment has a Townsfolk face exactly if it is the Drunk.
pub open spec fn face_ok(a: RoleAssignment) -> Result<(), GameError> {
    if a.true_character == Character::Drunk {
        match a.believed_character {
            None => Err(
                GameError::IllegalAction(
                    "Drunk assignment requires a Townsfolk believed_character face",
                ),
            ),
            Some(face) => if type_of(face) != CharacterType::Townsfolk {
                Err(GameError::IllegalAction("Drunk face must be a Townsfolk character"))
            } else {
                Ok(())
            },
        }
    } else if a.believed_character is Some {
        Err(GameError::IllegalAction("believed_character only valid for Drunk"))
    } else {
        Ok(())
    }
}

/// Some assignment is for this seat.
pub open spec fn seat_assigned(assignments: Seq<RoleAssignment>, seat: SeatId) -> bool {
    exists|i: int| 0 <= i < assignments.len() && (#[trigger] assignments[i]).seat == seat
}

/// The first objection to a list of assignments, taken one by one.
pub open spec fn each_assignment_ok(n_seats: int, assignments: Seq<RoleAssignment>) -> Result<
    (),
    GameError,
>
    decreases assignments.len(),
{
    if assignments.len() == 0 {
        Ok(())
    } else {
        let front = assignments.drop_last();
        let a = assignments.last();
        match each_assignment_ok(n_seats, front) {
            Err(e) => Err(e),
            Ok(_) => if a.seat.0 >= n_seats {
                Err(GameError::NoSuchSeat)
            } else if seat_assigned(front, a.seat) {
                Err(GameError::BadRequest("duplicate seat in assignments"))
            } else {
                face_ok(a)
            },
        }
    }
}

/// Somebody is the Imp.
pub open spec fn imp_assigned(assignments: Seq<RoleAssignment>) -> bool {
    exists|i: int|
        0 <= i < assignments.len() && (#[trigger] assignments[i]).true_character == Character::Imp
}

/// The objection to a full fixed assignment list, if there is one.
pub open spec fn fixed_ok(n_seats: int, assignments: Seq<RoleAssignment>) -> Result<(), GameError> {
    if assignments.len() != n_seats {
        Err(GameError::BadRequest("assignments must cover every seat exactly once"))
    } else if each_assignment_ok(n_seats, assignments) is Err {
        each_assignment_ok(n_seats, assignments)
    } else if !imp_assigned(assignments) {
        Err(GameError::IllegalAction("bag must include Imp"))
    } else {
        Ok(())
    }
}

/// Check the face of one assignment.
pub fn check_face(a: &RoleAssignment) -> (r: Result<(), GameError>)
    ensures
        r == face_ok(*a),
{
    if a.true_character == Character::Drunk {
        match a.believed_character {
            None => Err(
                GameError::IllegalAction(
                    "Drunk assignment requires a Townsfolk believed_character face",
                ),
            ),
            Some(face) => {
                if face.character_type() != CharacterType::Townsfolk {
                    return Err(
                        GameError::IllegalAction("Drunk face must be a Townsfolk character"),
                    );
                }
                Ok(())
            },
        }
    } else if a.believed_character.is_some() {
        Err(GameError::IllegalAction("believed_character only valid for Drunk"))
    } else {
        Ok(())
    }
}

fn assigned_before(assignments: &Vec<RoleAssignment>, upto: usize, seat: SeatId) -> (b: bool)
    requires
        upto <= assignments@.len(),
    ensures
        b == seat_assigned(assignments@.take(upto as int), seat),
{
    let ghost front = assignments@.take(upto as int);
    let mut i: usize = 0;
    while i < upto
        invariant
            i <= upto <= assignments@.len(),
            front == assignments@.take(upto as int),
            forall|k: int| 0 <= k < i ==> (#[trigger] front[k]).seat != seat,
        decreases upto - i,
    {
        assert(front[i as int] == assignments@[i as int]);
        if assignments[i].seat == seat {
            return true;
        }
        i += 1;
    }
    false
}

proof fn first_objection_stands(n_seats: int, assignments: Seq<RoleAssignment>, k: int)
    requires
        0 <= k <= assignments.len(),
        each_assignment_ok(n_seats, assignments.take(k)) is Err,
    ensures
        each_assignment_ok(n_seats, assignments) == each_assignment_ok(
            n_seats,
            assignments.take(k),
        ),
    decreases assignments.len() - k,
{
    if k < assignments.len() {
        assert(assignments.take(k + 1).drop_last() =~= assignments.take(k));
        first_objection_stands(n_seats, assignments, k + 1);
    } else {
        assert(assignments.take(k) =~= assignments);
    }
}

/// Validate a full fixed assignment list for start.
#[verifier::loop_isolation(false)]
pub fn validate_fixed_assignments(n_seats: usize, assignments: &Vec<RoleAssignment>) -> (r: Result<
    (),
    GameError,
>)
    ensures
        r == fixed_ok(n_seats as int, assignments@),
{
    if assignments.len() != n_seats {
        return Err(GameError::BadRequest("assignments must cover every seat exactly once"));
    }
    let mut has_imp = false;
    let mut i: usize = 0;
    while i < assignments.len()
        invariant
            i <= assignments.len(),
            each_assignment_ok(n_seats as int, assignments@.take(i as int)) is Ok,
            has_imp == imp_assigned(assignments@.take(i as int)),
        decreases assignments.len() - i,
    {
        let a = assignments[i];
        proof {
            let shown = assignments@.take(i + 1);
            assert(shown.drop_last() =~= assignments@.take(i as int));
            assert(shown.last() == a);
            if each_assignment_ok(n_seats as int, shown) is Err {
                first_objection_stands(n_seats as int, assignments@, i + 1);
            }
            if imp_assigned(assignments@.take(i as int)) {
                let k = choose|k: int|
                    0 <= k < i && (#[trigger] assignments@.take(i as int)[k]).true_character
                        == Character::Imp;
                assert(shown[k].true_character == Character::Imp);
            }
            if a.true_character == Character::Imp {
                assert(shown[i as int].true_character == Character::Imp);
            }
            if imp_assigned(shown) && a.true_character != Character::Imp {
                let k = choose|k: int|
                    0 <= k < i + 1 && (#[trigger] shown[k]).true_character == Character::Imp;
                assert(assignments@.take(i as int)[k].true_character == Character::Imp);
            }
        }
        if a.seat.0 as usize >= n_seats {
            return Err(GameError::NoSuchSeat);
        }
        if assigned_before(assignments, i, a.seat) {
            return Err(GameError::BadRequest("duplicate seat in assignments"));
        }
        if let Err(e) = check_face(&a) {
            return Err(e);
        }
        if a.true_character == Character::Imp {
            has_imp = true;
        }
        i += 1;
    }
    assert(assignments@.take(i as int) =~= assignments@);
    if !has_imp {
        return Err(GameError::IllegalAction("bag must include Imp"));
    }
    Ok(())
}

} // verus!
