//! What starting a game promises: who gets which character, who is told what, and which lists and
//! overrides are taken.

use crate::auth::Actor;
use crate::comms::{PrivateInboxesView, PrivateMessageView};
use crate::error::GameError;
use crate::game::ability::info_laws::{distinct_ids, is_evil};
use crate::game::day_laws::nights_pass_by_themselves;
use crate::game::ids::SeatId;
use crate::game::laws::night_tick_continues;
use crate::game::night::{badges, demons_told, listed, minions_briefed};
use crate::game::phase::{NightStep, Phase};
use crate::game::seat::{seat_index_is_first, Seat};
use crate::game::setup::{
    composition_of, count_of_type, each_assignment_ok, fixed_ok, legal_bag, BagView, StartOpts,
};
use crate::game::start::{
    assignment_index, bluffs_ok, identities_told, is_drunk_face, red_herring_ok, seats_dealt,
    with_faces,
};
use crate::game::state::{GameView, RoleAssignment};
use crate::roles::data::{name_of, rules_path_of};
use crate::roles::{team_of, Character, CharacterType};
use crate::text::{dec, joined};
use vstd::prelude::*;

verus! {

/// A table as a lobby opens it: the seats are numbered by their places.
pub open spec fn numbered_seats(seats: Seq<Seat>) -> bool {
    seats.len() <= 256 && forall|i: int|
        0 <= i < seats.len() ==> (#[trigger] seats[i]).id.0 == i
}

/// At most one assignment for every one of `n` seats, and none for another.
pub open spec fn one_each(list: Seq<RoleAssignment>, n: nat) -> bool {
    &&& forall|i: int| 0 <= i < list.len() ==> (#[trigger] list[i]).seat.0 < n
    &&& forall|i: int, j: int|
        0 <= i < list.len() && 0 <= j < list.len() && i != j ==> (#[trigger] list[i]).seat != (
        #[trigger] list[j]).seat
}

/// The seat was dealt this assignment and is otherwise as it was.
pub open spec fn holds(before: Seat, after: Seat, a: RoleAssignment) -> bool {
    &&& after.true_character == Some(a.true_character)
    &&& after.believed_character == a.believed_character
    &&& after.is_drunk_outsider == (a.true_character == Character::Drunk)
    &&& after.alive == before.alive
    &&& after.poisoned == before.poisoned
    &&& after.id == before.id
    &&& after.display_name == before.display_name
}

proof fn dealing_follows_the_list(seats: Seq<Seat>, list: Seq<RoleAssignment>)
    requires
        numbered_seats(seats),
        one_each(list, seats.len()),
    ensures
        ({
            let (after, all) = seats_dealt(seats, list);
            &&& all
            &&& after.len() == seats.len()
            &&& numbered_seats(after)
            &&& forall|k: int|
                0 <= k < list.len() ==> holds(
                    seats[(#[trigger] list[k]).seat.0 as int],
                    after[list[k].seat.0 as int],
                    list[k],
                )
            &&& forall|i: int|
                0 <= i < seats.len() && (forall|k: int|
                    0 <= k < list.len() ==> (#[trigger] list[k]).seat.0 != i) ==> (
                #[trigger] after[i]) == seats[i]
        }),
    decreases list.len(),
{
    if list.len() > 0 {
        let front = list.drop_last();
        assert forall|i: int| 0 <= i < front.len() implies (#[trigger] front[i]).seat.0
            < seats.len() by {
            assert(front[i] == list[i]);
        }
        assert forall|i: int, j: int|
            0 <= i < front.len() && 0 <= j < front.len() && i != j implies (
        #[trigger] front[i]).seat != (#[trigger] front[j]).seat by {
            assert(front[i] == list[i] && front[j] == list[j]);
        }
        dealing_follows_the_list(seats, front);
        let before = seats_dealt(seats, front).0;
        let a = list.last();
        assert(list[list.len() - 1] == a);
        let p = a.seat.0 as int;
        assert(before[p].id.0 == p);
        assert(before[p].id == a.seat);
        seat_index_is_first(before, a.seat);
        assert(forall|k: int| 0 <= k < p ==> (#[trigger] before[k]).id.0 == k);
        let after = seats_dealt(seats, list).0;
        assert(before[p] == seats[p]) by {
            assert forall|k: int| 0 <= k < front.len() implies (#[trigger] front[k]).seat.0
                != p by {
                assert(front[k] == list[k]);
                assert(list[k].seat != list[list.len() - 1].seat);
            }
        }
        assert forall|k: int| 0 <= k < list.len() implies holds(
            seats[(#[trigger] list[k]).seat.0 as int],
            after[list[k].seat.0 as int],
            list[k],
        ) by {
            if k < front.len() {
                assert(front[k] == list[k]);
                assert(list[k].seat != list[list.len() - 1].seat);
            }
        }
        assert forall|i: int|
            0 <= i < seats.len() && (forall|k: int|
                0 <= k < list.len() ==> (#[trigger] list[k]).seat.0 != i) implies (
        #[trigger] after[i]) == seats[i] by {
            assert forall|k: int| 0 <= k < front.len() implies (#[trigger] front[k]).seat.0
                != i by {
                assert(front[k] == list[k]);
            }
            assert(before[i] == seats[i]);
            assert(list[list.len() - 1].seat.0 != i);
        }
    }
}

/// Everyone gets the character and the face that the list deals to their seat, a Drunk is drunk
/// and nobody else is, and nobody dies or is poisoned by it.
pub proof fn everyone_gets_what_they_are_dealt(g: GameView, list: Seq<RoleAssignment>)
    requires
        numbered_seats(g.seats),
        one_each(list, g.seats.len()),
    ensures
        g.dealt_and_begun(list).1 is Ok,
        g.dealt_and_begun(list).0.seats.len() == g.seats.len(),
        forall|k: int|
            0 <= k < list.len() ==> holds(
                g.seats[(#[trigger] list[k]).seat.0 as int],
                g.dealt_and_begun(list).0.seats[list[k].seat.0 as int],
                list[k],
            ),
{
    dealing_follows_the_list(g.seats, list);
    let d = GameView { seats: seats_dealt(g.seats, list).0, ..g };
    beginning_changes_nobody(d);
}

/// The first night as it is laid out before its first step.
spec fn laid_out(g: GameView) -> GameView {
    let clean = GameView {
        private_inboxes: identities_told(g.private_inboxes, g.seats),
        deaths_tonight: seq![],
        executed_today: None,
        pending_night: None,
        pending_host: None,
        ..g
    }.with_day_votes_reset();
    GameView {
        night_queue: clean.first_night_steps(),
        night_cursor: 0,
        phase: Phase::FirstNight { cursor: 0 },
        ..clean
    }.announce("Night falls. Eyes closed. The first night begins."@)
}

proof fn ticking_keeps_the_setup(g: GameView)
    ensures
        g.ticked().registration_mode == g.registration_mode,
        g.ticked().st_choice_mode == g.st_choice_mode,
        g.ticked().red_herring == g.red_herring,
        g.ticked().demon_bluffs == g.demon_bluffs,
    decreases g.night_queue.len() - g.night_cursor,
{
    reveal(GameView::dawned);
    if !(g.pending_night is Some || !g.phase.night_falls() || g.night_cursor >= g.night_queue.len()
        || g.night_cursor == usize::MAX) {
        let step = g.night_queue[g.night_cursor as int];
        if crate::game::night::wake_of(step) is None && step != NightStep::Dawn {
            ticking_keeps_the_setup(
                GameView { private_inboxes: g.step_mail(step), ..g }.advanced(),
            );
        }
    }
}

proof fn beginning_changes_nobody(g: GameView)
    ensures
        ({
            let h = g.first_night_begun();
            &&& h.seats.len() == g.seats.len()
            &&& forall|i: int|
                0 <= i < g.seats.len() ==> (#[trigger] h.seats[i]).true_character
                    == g.seats[i].true_character && h.seats[i].believed_character
                    == g.seats[i].believed_character && h.seats[i].is_drunk_outsider
                    == g.seats[i].is_drunk_outsider && h.seats[i].alive == g.seats[i].alive
                    && h.seats[i].poisoned == g.seats[i].poisoned && h.seats[i].id
                    == g.seats[i].id && h.seats[i].display_name == g.seats[i].display_name
            &&& h.registration_mode == g.registration_mode
            &&& h.st_choice_mode == g.st_choice_mode
            &&& h.red_herring == g.red_herring
            &&& h.demon_bluffs == g.demon_bluffs
        }),
{
    nights_pass_by_themselves(laid_out(g));
    ticking_keeps_the_setup(laid_out(g));
}

proof fn telling_goes_round(boxes: PrivateInboxesView, seats: Seq<Seat>)
    requires
        forall|i: int| 0 <= i < seats.len() ==> (#[trigger] seats[i]).true_character is Some,
    ensures
        ({
            let n = boxes.entries.len() as int;
            let told = identities_told(boxes, seats).entries;
            &&& told.len() == n + seats.len()
            &&& boxes.entries.is_prefix_of(told)
            &&& forall|i: int|
                #![trigger seats[i]]
                0 <= i < seats.len() ==> is_told_face(seats[i], told[n + i].0, told[n + i].2)
        }),
    decreases seats.len(),
{
    if seats.len() > 0 {
        let front = seats.drop_last();
        assert forall|i: int| 0 <= i < front.len() implies (#[trigger] front[i]).true_character
            is Some by {
            assert(front[i] == seats[i]);
        }
        telling_goes_round(boxes, front);
        let n = boxes.entries.len() as int;
        let told = identities_told(boxes, seats).entries;
        assert(seats[seats.len() - 1] == seats.last());
        assert forall|i: int|
            #![trigger seats[i]]
            0 <= i < seats.len() implies is_told_face(seats[i], told[n + i].0, told[n + i].2) by {
            if i < front.len() {
                assert(front[i] == seats[i]);
                assert(told[n + i] == identities_told(boxes, front).entries[n + i]);
            }
        }
    }
}

/// A message to the seat that names the character its player believes to be, with its team.
pub open spec fn is_told_face(s: Seat, to: SeatId, msg: PrivateMessageView) -> bool {
    let face = if s.believed_character is Some {
        s.believed_character->0
    } else {
        s.true_character->0
    };
    to == s.id && msg == PrivateMessageView::YouAre {
        character_label: name_of(face),
        team: team_of(face),
        rules_path: rules_path_of(face),
        note: None,
    }
}

/// The first thing every player hears is the character they believe to be: the true one, or for
/// the Drunk the face.
pub proof fn players_are_told_their_face(g: GameView)
    requires
        forall|i: int| 0 <= i < g.seats.len() ==> (#[trigger] g.seats[i]).true_character is Some,
    ensures
        ({
            let n = g.private_inboxes.entries.len() as int;
            let after = g.first_night_begun().private_inboxes.entries;
            &&& n + g.seats.len() <= after.len()
            &&& forall|i: int|
                #![trigger g.seats[i]]
                0 <= i < g.seats.len() ==> is_told_face(
                    g.seats[i],
                    after[n + i].0,
                    after[n + i].2,
                )
        }),
{
    telling_goes_round(g.private_inboxes, g.seats);
    night_tick_continues(laid_out(g));
    let n = g.private_inboxes.entries.len() as int;
    let told = identities_told(g.private_inboxes, g.seats).entries;
    let after = g.first_night_begun().private_inboxes.entries;
    assert forall|i: int|
        #![trigger g.seats[i]]
        0 <= i < g.seats.len() implies is_told_face(g.seats[i], after[n + i].0, after[n + i].2) by {
        assert(told[n + i] == after[n + i]);
    }
}

/// Only the host starts a game, only once, and the options they gave are what it is played with.
pub proof fn games_start_as_the_host_says(g: GameView, host: Seq<char>, opts: StartOpts)
    ensures
        g.tokens.actor(host) != Some(Actor::Host) ==> g.started(host, opts) == (
            g,
            Err::<(), GameError>(GameError::Unauthorized),
        ),
        g.tokens.actor(host) == Some(Actor::Host) && !(g.phase is Lobby) ==> g.started(host, opts)
            == (g, Err::<(), GameError>(GameError::WrongPhase)),
        g.started(host, opts).1 is Ok ==> {
            let h = g.started(host, opts).0;
            &&& h.registration_mode == opts.registration_mode
            &&& h.st_choice_mode == opts.st_choice_mode
            &&& opts.red_herring is Some ==> h.red_herring == opts.red_herring
            &&& opts.demon_bluffs matches Some(b) ==> h.demon_bluffs == b@
        },
{
    if g.started(host, opts).1 is Ok {
        let (list, red_herring, demon_bluffs) = g.deal_for(opts)->Ok_0;
        let d = GameView {
            registration_mode: opts.registration_mode,
            st_choice_mode: opts.st_choice_mode,
            red_herring,
            demon_bluffs,
            ..g
        };
        beginning_changes_nobody(GameView { seats: seats_dealt(d.seats, list).0, ..d });
    }
}

/// A list of characters given by the host is dealt as it stands.
pub proof fn given_characters_are_dealt(g: GameView, host: Seq<char>, opts: StartOpts)
    requires
        numbered_seats(g.seats),
        opts.assignments is Some,
        opts.drunk_faces is None,
        g.started(host, opts).1 is Ok,
    ensures
        ({
            let list = opts.assignments->0@;
            let h = g.started(host, opts).0;
            &&& list.len() == g.seats.len()
            &&& h.seats.len() == g.seats.len()
            &&& forall|k: int|
                0 <= k < list.len() ==> holds(
                    g.seats[(#[trigger] list[k]).seat.0 as int],
                    h.seats[list[k].seat.0 as int],
                    list[k],
                )
        }),
{
    let list = opts.assignments->0@;
    given_lists_are_checked(g.seats.len() as int, list);
    let (_, red_herring, demon_bluffs) = g.deal_for(opts)->Ok_0;
    everyone_gets_what_they_are_dealt(
        GameView {
            registration_mode: opts.registration_mode,
            st_choice_mode: opts.st_choice_mode,
            red_herring,
            demon_bluffs,
            ..g
        },
        list,
    );
}

/// A face exactly for the Drunk, and a Townsfolk's.
pub open spec fn fitting_face(a: RoleAssignment) -> bool {
    if a.true_character == Character::Drunk {
        a.believed_character matches Some(face) && type_is_townsfolk(face)
    } else {
        a.believed_character is None
    }
}

/// One of the thirteen Townsfolk.
pub open spec fn type_is_townsfolk(c: Character) -> bool {
    match c {
        Character::Washerwoman | Character::Librarian | Character::Investigator | Character::Chef
        | Character::Empath | Character::FortuneTeller | Character::Undertaker | Character::Monk
        | Character::Ravenkeeper | Character::Virgin | Character::Slayer | Character::Soldier
        | Character::Mayor => true,
        _ => false,
    }
}

proof fn checked_one_by_one(n: int, list: Seq<RoleAssignment>)
    ensures
        each_assignment_ok(n, list) is Ok <==> {
            &&& forall|i: int|
                0 <= i < list.len() ==> (#[trigger] list[i]).seat.0 < n && fitting_face(list[i])
            &&& forall|i: int, j: int|
                0 <= i < list.len() && 0 <= j < list.len() && i != j ==> (
                #[trigger] list[i]).seat != (#[trigger] list[j]).seat
        },
    decreases list.len(),
{
    if list.len() > 0 {
        let front = list.drop_last();
        let a = list.last();
        let m = list.len() - 1;
        assert(list[m] == a);
        checked_one_by_one(n, front);
        assert(forall|i: int| 0 <= i < front.len() ==> front[i] == #[trigger] list[i]);
        assert(forall|i: int| 0 <= i < front.len() ==> list[i] == #[trigger] front[i]);
        if crate::game::setup::seat_assigned(front, a.seat) {
            let i = choose|i: int| 0 <= i < front.len() && (#[trigger] front[i]).seat == a.seat;
            assert(list[i].seat == list[m].seat);
        }
        if each_assignment_ok(n, list) is Ok {
            assert forall|i: int, j: int|
                0 <= i < list.len() && 0 <= j < list.len() && i != j implies (
            #[trigger] list[i]).seat != (#[trigger] list[j]).seat by {
                if i < m && j < m {
                    assert(front[i].seat != front[j].seat);
                } else if i == m {
                    assert(front[j].seat != a.seat);
                } else {
                    assert(front[i].seat != a.seat);
                }
            }
            assert forall|i: int| 0 <= i < list.len() implies (#[trigger] list[i]).seat.0 < n
                && fitting_face(list[i]) by {
                if i < m {
                    assert(front[i].seat.0 < n && fitting_face(front[i]));
                }
            }
        }
        if each_assignment_ok(n, front) is Err && (forall|i: int|
            0 <= i < list.len() ==> (#[trigger] list[i]).seat.0 < n && fitting_face(list[i]))
            && (forall|i: int, j: int|
            0 <= i < list.len() && 0 <= j < list.len() && i != j ==> (#[trigger] list[i]).seat != (
            #[trigger] list[j]).seat) {
            assert forall|i: int| 0 <= i < front.len() implies (#[trigger] front[i]).seat.0 < n
                && fitting_face(front[i]) by {
                assert(list[i].seat.0 < n && fitting_face(list[i]));
            }
            assert forall|i: int, j: int|
                0 <= i < front.len() && 0 <= j < front.len() && i != j implies (
            #[trigger] front[i]).seat != (#[trigger] front[j]).seat by {
                assert(list[i].seat != list[j].seat);
            }
        }
    }
}

/// A list of characters is taken exactly if it has one assignment for every seat, a Townsfolk face
/// for the Drunk and for nobody else, and an Imp.
pub proof fn given_lists_are_checked(n: int, list: Seq<RoleAssignment>)
    ensures
        fixed_ok(n, list) is Ok <==> {
            &&& list.len() == n
            &&& one_each(list, n as nat)
            &&& forall|i: int| 0 <= i < list.len() ==> fitting_face(#[trigger] list[i])
            &&& exists|i: int|
                0 <= i < list.len() && (#[trigger] list[i]).true_character == Character::Imp
        },
{
    checked_one_by_one(n, list);
}

/// A red herring of the host's is taken exactly for a good player's seat with a Fortune Teller in
/// the bag.
pub proof fn red_herrings_are_good(list: Seq<RoleAssignment>, bag: Seq<Character>, i: int)
    requires
        0 <= i < list.len(),
        forall|j: int, k: int|
            0 <= j < list.len() && 0 <= k < list.len() && j != k ==> (#[trigger] list[j]).seat != (
            #[trigger] list[k]).seat,
    ensures
        red_herring_ok(list, bag, list[i].seat) is Ok <==> bag.contains(Character::FortuneTeller)
            && !is_evil(Some(list[i].true_character)),
{
    the_only_one_is_found(list, i);
}

proof fn the_only_one_is_found(list: Seq<RoleAssignment>, i: int)
    requires
        0 <= i < list.len(),
        forall|j: int, k: int|
            0 <= j < list.len() && 0 <= k < list.len() && j != k ==> (#[trigger] list[j]).seat != (
            #[trigger] list[k]).seat,
    ensures
        assignment_index(list, list[i].seat) == Some(i),
    decreases list.len(),
{
    let front = list.drop_last();
    assert(forall|j: int| 0 <= j < front.len() ==> list[j] == #[trigger] front[j]);
    if i < front.len() {
        assert forall|j: int, k: int|
            0 <= j < front.len() && 0 <= k < front.len() && j != k implies (
        #[trigger] front[j]).seat != (#[trigger] front[k]).seat by {
            assert(list[j].seat != list[k].seat);
        }
        the_only_one_is_found(front, i);
    } else {
        not_there_is_not_found(front, list[i].seat);
    }
}

proof fn not_there_is_not_found(list: Seq<RoleAssignment>, seat: SeatId)
    requires
        forall|j: int| 0 <= j < list.len() ==> (#[trigger] list[j]).seat != seat,
    ensures
        assignment_index(list, seat) is None,
    decreases list.len(),
{
    if list.len() > 0 {
        let front = list.drop_last();
        assert forall|j: int| 0 <= j < front.len() implies (#[trigger] front[j]).seat != seat by {
            assert(front[j] == list[j]);
        }
        not_there_is_not_found(front, seat);
        assert(list[list.len() - 1].seat != seat);
    }
}

/// Bluffs of the host's are taken exactly if they are three good characters, none of them in the
/// bag and none of them what a Drunk believes to be.
pub proof fn bluffs_are_good_and_out_of_play(
    bag: Seq<Character>,
    list: Seq<RoleAssignment>,
    bluffs: Seq<Character>,
)
    ensures
        bluffs_ok(bag, list, bluffs) is Ok <==> bluffs.len() == 3 && forall|k: int|
            #![trigger bluffs[k]]
            0 <= k < 3 ==> !is_evil(Some(bluffs[k])) && !bag.contains(bluffs[k]) && !(exists|i: int|
                0 <= i < list.len() && (#[trigger] list[i]).true_character == Character::Drunk
                    && list[i].believed_character == Some(bluffs[k])),
{
    if bluffs.len() == 3 {
        assert(is_drunk_face(list, bluffs[0]) || !is_drunk_face(list, bluffs[0]));
        assert(is_drunk_face(list, bluffs[1]) || !is_drunk_face(list, bluffs[1]));
        assert(is_drunk_face(list, bluffs[2]) || !is_drunk_face(list, bluffs[2]));
    }
}

/// A face given to a seat becomes what its Drunk believes, and nothing else changes; it is taken
/// exactly if the seat is the Drunk's and the face a Townsfolk's outside the bag.
pub proof fn faces_go_on_drunks(
    list: Seq<RoleAssignment>,
    bag: Seq<Character>,
    i: int,
    face: Character,
)
    requires
        0 <= i < list.len(),
        forall|j: int, k: int|
            0 <= j < list.len() && 0 <= k < list.len() && j != k ==> (#[trigger] list[j]).seat != (
            #[trigger] list[k]).seat,
    ensures
        ({
            let r = with_faces(list, bag, seq![(list[i].seat, face)]);
            &&& r is Ok <==> list[i].true_character == Character::Drunk && type_is_townsfolk(face)
                && !bag.contains(face)
            &&& r matches Ok(dressed) ==> dressed == list.update(
                i,
                RoleAssignment {
                    seat: list[i].seat,
                    true_character: Character::Drunk,
                    believed_character: Some(face),
                },
            )
        }),
{
    let faces = seq![(list[i].seat, face)];
    the_only_one_is_found(list, i);
    assert(faces.drop_last() =~= seq![]);
    assert(faces.last() == (list[i].seat, face));
    reveal_with_fuel(with_faces, 2);
}

/// Faces are put on one after the other, and the first one that is refused refuses them all.
pub proof fn faces_are_put_on_in_turn(
    list: Seq<RoleAssignment>,
    bag: Seq<Character>,
    faces: Seq<(SeatId, Character)>,
    more: (SeatId, Character),
)
    ensures
        with_faces(list, bag, seq![]) == Ok::<Seq<RoleAssignment>, GameError>(list),
        with_faces(list, bag, faces.push(more)) == match with_faces(list, bag, faces) {
            Ok(dressed) => with_faces(dressed, bag, seq![more]),
            Err(e) => Err(e),
        },
{
    assert(faces.push(more).drop_last() =~= faces);
    let one = seq![more];
    assert(one.drop_last() =~= seq![]);
    assert(one.last() == more);
    reveal_with_fuel(with_faces, 2);
}

/// A bag that is dealt holds one Demon, the Imp; a Baron in it means two more Outsiders and two
/// fewer Townsfolk; every character of it sits somewhere; the bluffs are good and out of play,
/// three from seven players on; a red herring is there with the Fortune Teller only and is good.
pub proof fn bags_follow_the_rules(bag: BagView, n: int)
    requires
        legal_bag(bag, n),
    ensures
        bag.bag_set.len() == n && bag.assignments.len() == n,
        bag.bag_set.contains(Character::Imp),
        count_of_type(bag.bag_set, CharacterType::Demon) == 1,
        count_of_type(bag.bag_set, CharacterType::Minion) == composition_of(n).minions,
        count_of_type(bag.bag_set, CharacterType::Outsider) == composition_of(n).outsiders + if
            bag.bag_set.contains(Character::Baron) { 2int } else { 0 },
        count_of_type(bag.bag_set, CharacterType::Townsfolk) == composition_of(n).townsfolk - if
            bag.bag_set.contains(Character::Baron) { 2int } else { 0 },
        forall|i: int|
            0 <= i < n ==> (#[trigger] bag.assignments[i]).seat == SeatId(i as u8) && fitting_face(
                bag.assignments[i],
            ) && bag.bag_set.contains(bag.assignments[i].true_character),
        forall|i: int, j: int|
            0 <= i < j < n ==> bag.assignments[i].true_character
                != bag.assignments[j].true_character,
        bag.demon_bluffs.len() == if n >= 7 { 3int } else { 0 },
        bag.demon_bluffs.no_duplicates(),
        forall|k: int|
            0 <= k < bag.demon_bluffs.len() ==> !is_evil(Some(#[trigger] bag.demon_bluffs[k]))
                && !bag.bag_set.contains(bag.demon_bluffs[k]),
        bag.red_herring is Some <==> bag.bag_set.contains(Character::FortuneTeller),
        bag.red_herring matches Some(seat) ==> seat.0 < n && !is_evil(
            Some(bag.assignments[seat.0 as int].true_character),
        ),
{
    assert forall|i: int| 0 <= i < n implies bag.bag_set.contains(
        (#[trigger] bag.assignments[i]).true_character,
    ) by {
        let c = bag.assignments[i].true_character;
        assert(exists|k: int|
            0 <= k < bag.assignments.len() && (#[trigger] bag.assignments[k]).true_character == c);
    }
}

/// Somebody of a kind, by what they truly are.
pub open spec fn truly_imp(s: Seat) -> bool {
    s.true_character == Some(Character::Imp)
}

/// One of the four Minions.
pub open spec fn truly_minion(s: Seat) -> bool {
    is_evil(s.true_character) && s.true_character != Some(Character::Imp)
}

/// How a briefing names a player.
pub open spec fn badge(s: Seat) -> Seq<char> {
    s.display_name@ + " (seat "@ + dec(s.id.0 as nat) + ")"@
}

proof fn badges_name_the_kind(seats: Seq<Seat>, ty: CharacterType, but: Option<SeatId>, b: Seq<char>)
    requires
        ty == CharacterType::Demon || ty == CharacterType::Minion,
    ensures
        badges(seats, ty, but).contains(b) <==> exists|i: int|
            0 <= i < seats.len() && b == badge(#[trigger] seats[i]) && (if ty
                == CharacterType::Demon {
                truly_imp(seats[i])
            } else {
                truly_minion(seats[i])
            }) && but != Some(seats[i].id),
    decreases seats.len(),
{
    if seats.len() > 0 {
        let front = seats.drop_last();
        badges_name_the_kind(front, ty, but, b);
        let list = badges(seats, ty, but);
        let short = badges(front, ty, but);
        let m = seats.len() - 1;
        assert(seats[m] == seats.last());
        assert(forall|i: int| 0 <= i < front.len() ==> seats[i] == #[trigger] front[i]);
        assert(forall|i: int| 0 <= i < front.len() ==> front[i] == #[trigger] seats[i]);
        if list.len() > short.len() {
            assert(list =~= short.push(badge(seats.last())));
            if short.contains(b) {
                let k = choose|k: int| 0 <= k < short.len() && short[k] == b;
                assert(list[k] == b);
            }
            if list.contains(b) {
                let k = choose|k: int| 0 <= k < list.len() && list[k] == b;
                if k < short.len() {
                    assert(short[k] == b);
                }
            }
            assert(list[short.len() as int] == badge(seats.last()));
        }
    }
}

/// The evil team learns each other: a Minion's message names the Imp and every other Minion, the
/// Demon's names every Minion and lists the bluffs.
pub proof fn evil_learns_its_own(seats: Seq<Seat>, i: int, me: SeatId, bluffs: Seq<Character>)
    requires
        0 <= i < seats.len(),
    ensures
        ({
            let demons = badges(seats, CharacterType::Demon, None);
            let fellows = badges(seats, CharacterType::Minion, Some(me));
            let minions = badges(seats, CharacterType::Minion, None);
            &&& truly_imp(seats[i]) ==> demons.contains(badge(seats[i]))
            &&& truly_minion(seats[i]) ==> minions.contains(badge(seats[i]))
            &&& truly_minion(seats[i]) && seats[i].id != me ==> fellows.contains(badge(seats[i]))
            &&& demons.len() > 0 && fellows.len() > 0
                ==> crate::game::night::minion_briefing(seats, me) == "The Demon is "@ + joined(
                demons,
                ", "@,
            ) + ". Fellow Minions: "@ + joined(fellows, ", "@) + "."@
            &&& minions.len() > 0 && bluffs.len() > 0
                ==> crate::game::night::demon_briefing(seats, bluffs) == "Your Minions: "@ + joined(
                minions,
                ", "@,
            ) + ". Not-in-play bluffs: "@ + joined(
                Seq::new(bluffs.len(), |k: int| name_of(bluffs[k])),
                ", "@,
            ) + "."@
        }),
{
    badges_name_the_kind(seats, CharacterType::Demon, None, badge(seats[i]));
    badges_name_the_kind(seats, CharacterType::Minion, None, badge(seats[i]));
    badges_name_the_kind(seats, CharacterType::Minion, Some(me), badge(seats[i]));
    assert(crate::game::night::names_of(bluffs) =~= Seq::new(
        bluffs.len(),
        |k: int| name_of(bluffs[k]),
    ));
}

/// Nobody is named who is not of the kind.
pub proof fn briefings_name_only_evil(seats: Seq<Seat>, me: SeatId, b: Seq<char>)
    ensures
        badges(seats, CharacterType::Demon, None).contains(b) ==> exists|i: int|
            0 <= i < seats.len() && b == badge(#[trigger] seats[i]) && truly_imp(seats[i]),
        badges(seats, CharacterType::Minion, Some(me)).contains(b) ==> exists|i: int|
            0 <= i < seats.len() && b == badge(#[trigger] seats[i]) && truly_minion(seats[i])
                && seats[i].id != me,
        listed(seq![], b) == b,
{
    badges_name_the_kind(seats, CharacterType::Demon, None, b);
    badges_name_the_kind(seats, CharacterType::Minion, Some(me), b);
}

/// The briefings reach the evil team and nobody else: new mail goes only to Minions, or only to
/// the Demon, and each of them gets some.
pub proof fn briefings_reach_the_evil(g: GameView, i: int)
    requires
        distinct_ids(g.seats),
        0 <= i < g.seats.len(),
    ensures
        ({
            let n = g.private_inboxes.entries.len() as int;
            let to_minions = g.step_mail(NightStep::MinionBriefing).entries;
            let to_demon = g.step_mail(NightStep::DemonBriefing).entries;
            &&& truly_minion(g.seats[i]) <==> exists|k: int|
                n <= k < to_minions.len() && (#[trigger] to_minions[k]).0 == g.seats[i].id
            &&& truly_imp(g.seats[i]) <==> exists|k: int|
                n <= k < to_demon.len() && (#[trigger] to_demon[k]).0 == g.seats[i].id
        }),
{
    mail_to_minions(g.private_inboxes, g.seats, g.seats);
    mail_to_demons(
        g.private_inboxes,
        crate::game::night::demon_briefing(g.seats, g.demon_bluffs),
        g.seats,
    );
    let n = g.private_inboxes.entries.len() as int;
    let to_minions = g.step_mail(NightStep::MinionBriefing).entries;
    let to_demon = g.step_mail(NightStep::DemonBriefing).entries;
    if exists|k: int| n <= k < to_minions.len() && (#[trigger] to_minions[k]).0 == g.seats[i].id {
        let k = choose|k: int|
            n <= k < to_minions.len() && (#[trigger] to_minions[k]).0 == g.seats[i].id;
        let j = choose|j: int|
            0 <= j < g.seats.len() && truly_minion(#[trigger] g.seats[j]) && to_minions[k].0
                == g.seats[j].id;
        assert(i == j);
    }
    if exists|k: int| n <= k < to_demon.len() && (#[trigger] to_demon[k]).0 == g.seats[i].id {
        let k = choose|k: int|
            n <= k < to_demon.len() && (#[trigger] to_demon[k]).0 == g.seats[i].id;
        let j = choose|j: int|
            0 <= j < g.seats.len() && truly_imp(#[trigger] g.seats[j]) && to_demon[k].0
                == g.seats[j].id;
        assert(i == j);
    }
}

spec fn got_mail(
    entries: Seq<(SeatId, crate::comms::EventId, PrivateMessageView)>,
    from: int,
    to: SeatId,
) -> bool {
    exists|k: int| from <= k < entries.len() && (#[trigger] entries[k]).0 == to
}

spec fn is_one_of(seats: Seq<Seat>, kind: spec_fn(Seat) -> bool, to: SeatId) -> bool {
    exists|j: int| 0 <= j < seats.len() && kind(#[trigger] seats[j]) && to == seats[j].id
}

proof fn mail_to_minions(boxes: PrivateInboxesView, table: Seq<Seat>, upto: Seq<Seat>)
    ensures
        ({
            let n = boxes.entries.len() as int;
            let after = minions_briefed(boxes, table, upto).entries;
            &&& n <= after.len()
            &&& forall|j: int|
                0 <= j < upto.len() && truly_minion(#[trigger] upto[j]) ==> got_mail(
                    after,
                    n,
                    upto[j].id,
                )
            &&& forall|k: int|
                n <= k < after.len() ==> is_one_of(
                    upto,
                    |s: Seat| truly_minion(s),
                    (#[trigger] after[k]).0,
                )
        }),
    decreases upto.len(),
{
    if upto.len() > 0 {
        let front = upto.drop_last();
        let m = upto.len() - 1;
        let kind = |s: Seat| truly_minion(s);
        mail_to_minions(boxes, table, front);
        let n = boxes.entries.len() as int;
        let short = minions_briefed(boxes, table, front).entries;
        let after = minions_briefed(boxes, table, upto).entries;
        assert(upto[m] == upto.last());
        assert forall|j: int| 0 <= j < upto.len() && truly_minion(#[trigger] upto[j]) implies
            got_mail(after, n, upto[j].id) by {
            if j < m {
                assert(front[j] == upto[j]);
                let k = choose|k: int| n <= k < short.len() && (#[trigger] short[k]).0 == upto[j].id;
                assert(after[k].0 == upto[j].id);
            } else {
                assert(after[short.len() as int].0 == upto[j].id);
            }
        }
        assert forall|k: int| n <= k < after.len() implies is_one_of(
            upto,
            kind,
            (#[trigger] after[k]).0,
        ) by {
            if k < short.len() {
                assert(short[k] == after[k]);
                let j = choose|j: int|
                    0 <= j < front.len() && kind(#[trigger] front[j]) && short[k].0 == front[j].id;
                assert(kind(upto[j]));
            } else {
                assert(kind(upto[m]));
            }
        }
    }
}

proof fn mail_to_demons(boxes: PrivateInboxesView, text: Seq<char>, upto: Seq<Seat>)
    ensures
        ({
            let n = boxes.entries.len() as int;
            let after = demons_told(boxes, text, upto).entries;
            &&& n <= after.len()
            &&& forall|j: int|
                0 <= j < upto.len() && truly_imp(#[trigger] upto[j]) ==> got_mail(
                    after,
                    n,
                    upto[j].id,
                )
            &&& forall|k: int|
                n <= k < after.len() ==> is_one_of(
                    upto,
                    |s: Seat| truly_imp(s),
                    (#[trigger] after[k]).0,
                )
        }),
    decreases upto.len(),
{
    if upto.len() > 0 {
        let front = upto.drop_last();
        let m = upto.len() - 1;
        let kind = |s: Seat| truly_imp(s);
        mail_to_demons(boxes, text, front);
        let n = boxes.entries.len() as int;
        let short = demons_told(boxes, text, front).entries;
        let after = demons_told(boxes, text, upto).entries;
        assert(upto[m] == upto.last());
        assert forall|j: int| 0 <= j < upto.len() && truly_imp(#[trigger] upto[j]) implies
            got_mail(after, n, upto[j].id) by {
            if j < m {
                assert(front[j] == upto[j]);
                let k = choose|k: int| n <= k < short.len() && (#[trigger] short[k]).0 == upto[j].id;
                assert(after[k].0 == upto[j].id);
            } else {
                assert(after[short.len() as int].0 == upto[j].id);
            }
        }
        assert forall|k: int| n <= k < after.len() implies is_one_of(
            upto,
            kind,
            (#[trigger] after[k]).0,
        ) by {
            if k < short.len() {
                assert(short[k] == after[k]);
                let j = choose|j: int|
                    0 <= j < front.len() && kind(#[trigger] front[j]) && short[k].0 == front[j].id;
                assert(kind(upto[j]));
            } else {
                assert(kind(upto[m]));
            }
        }
    }
}

} // verus!
