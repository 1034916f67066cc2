//! Starting a game: overrides, dealing characters to seats, the first night.

use crate::auth::{Actor, Token};
use crate::comms::{PrivateInboxesView, PrivateMessage, PrivateMessageView};
use crate::error::GameError;
use crate::game::ids::SeatId;
use crate::game::night::build_first_night_queue;
use crate::game::phase::Phase;
use crate::game::laws::first_night_continues;
use crate::game::seat::{find_seat, seat_index_is_first, seat_of, with_seat, Seat};
use crate::game::setup::{
    build_bag, check_face, drawn_bag, drawn_bluffs, drawn_red_herring, each_assignment_ok,
    face_ok, fixed_ok,
    holds_character, playable, reorder, reordered, setup_markers, up_to,
    validate_fixed_assignments, StartOpts,
};
use crate::game::state::{Game, GameView, RoleAssignment};
use crate::rng::SeededRng;
use crate::roles::data::{name_of, rules_path_of};
use crate::roles::{
    all_good, good_pool, team_of, type_of, Character, CharacterType, Team,
};
use vstd::prelude::*;
use vstd::string::*;

verus! {

// ---------------------------------------------------------------------------
// Overrides
// ---------------------------------------------------------------------------

/// The true characters of a list of assignments.
pub open spec fn characters_of(assignments: Seq<RoleAssignment>) -> Seq<Character> {
    assignments.map_values(|a: RoleAssignment| a.true_character)
}

/// Index of the first assignment for this seat.
pub open spec fn assignment_index(assignments: Seq<RoleAssignment>, seat: SeatId) -> Option<int>
    decreases assignments.len(),
{
    if assignments.len() == 0 {
        None
    } else {
        match assignment_index(assignments.drop_last(), seat) {
            Some(i) => Some(i),
            None => if assignments.last().seat == seat {
                Some(assignments.len() - 1)
            } else {
                None
            },
        }
    }
}

/// The assignments with the given Drunk faces, or the first objection to one of them.
pub open spec fn with_faces(
    assignments: Seq<RoleAssignment>,
    bag_set: Seq<Character>,
    faces: Seq<(SeatId, Character)>,
) -> Result<Seq<RoleAssignment>, GameError>
    decreases faces.len(),
{
    if faces.len() == 0 {
        Ok(assignments)
    } else {
        match with_faces(assignments, bag_set, faces.drop_last()) {
            Err(e) => Err(e),
            Ok(dressed) => {
                let (seat, face) = faces.last();
                if type_of(face) != CharacterType::Townsfolk {
                    Err(GameError::IllegalAction("drunk face override must be Townsfolk"))
                } else if bag_set.contains(face) {
                    Err(GameError::IllegalAction("drunk face override must not be in the bag"))
                } else {
                    match assignment_index(dressed, seat) {
                        None => Err(GameError::NoSuchSeat),
                        Some(i) => if dressed[i].true_character != Character::Drunk {
                            Err(
                                GameError::IllegalAction(
                                    "drunk face override only valid for Drunk seats",
                                ),
                            )
                        } else {
                            Ok(
                                dressed.update(
                                    i,
                                    RoleAssignment {
                                        believed_character: Some(face),
                                        ..dressed[i]
                                    },
                                ),
                            )
                        },
                    }
                }
            },
        }
    }
}

/// The objection to a red herring override, if there is one.
pub open spec fn red_herring_ok(
    assignments: Seq<RoleAssignment>,
    bag_set: Seq<Character>,
    rh: SeatId,
) -> Result<(), GameError> {
    if !bag_set.contains(Character::FortuneTeller) {
        Err(GameError::IllegalAction("red_herring override requires Fortune Teller in play"))
    } else {
        match assignment_index(assignments, rh) {
            None => Err(GameError::NoSuchSeat),
            Some(i) => if team_of(assignments[i].true_character) != Team::Good {
                Err(GameError::IllegalAction("red_herring must be a good seat"))
            } else {
                Ok(())
            },
        }
    }
}

/// Some Drunk believes to be `c`.
pub open spec fn is_drunk_face(assignments: Seq<RoleAssignment>, c: Character) -> bool {
    exists|i: int|
        0 <= i < assignments.len() && (#[trigger] assignments[i]).true_character == Character::Drunk
            && assignments[i].believed_character == Some(c)
}

/// The objection to one bluff, if there is one.
pub open spec fn bluff_ok(
    bag_set: Seq<Character>,
    assignments: Seq<RoleAssignment>,
    c: Character,
) -> Result<
    (),
    GameError,
> {
    if team_of(c) != Team::Good {
        Err(GameError::IllegalAction("demon_bluffs must be good characters"))
    } else if bag_set.contains(c) {
        Err(GameError::IllegalAction("demon_bluffs must not be in the bag"))
    } else if is_drunk_face(assignments, c) {
        Err(GameError::IllegalAction("demon_bluffs must not match Drunk faces"))
    } else {
        Ok(())
    }
}

/// The first objection to a bluff override, if there is one.
pub open spec fn bluffs_ok(
    bag_set: Seq<Character>,
    assignments: Seq<RoleAssignment>,
    bluffs: Seq<Character>,
) -> Result<(), GameError> {
    if bluffs.len() != 3 {
        Err(GameError::IllegalAction("demon_bluffs override must list exactly 3 characters"))
    } else if bluff_ok(bag_set, assignments, bluffs[0]) is Err {
        bluff_ok(bag_set, assignments, bluffs[0])
    } else if bluff_ok(bag_set, assignments, bluffs[1]) is Err {
        bluff_ok(bag_set, assignments, bluffs[1])
    } else {
        bluff_ok(bag_set, assignments, bluffs[2])
    }
}

/// Some seat is a Drunk with a face.
pub open spec fn has_drunk_face(assignments: Seq<RoleAssignment>) -> bool {
    exists|i: int|
        0 <= i < assignments.len() && (#[trigger] assignments[i]).true_character == Character::Drunk
            && assignments[i].believed_character is Some
}

/// The bluffs that no Drunk believes to be.
pub open spec fn bluffs_kept(assignments: Seq<RoleAssignment>, bluffs: Seq<Character>) -> Seq<
    Character,
> {
    bluffs.filter(|c: Character| !is_drunk_face(assignments, c))
}

/// Good characters that can still serve as a bluff.
pub open spec fn spare_bluffs(
    bag_set: Seq<Character>,
    assignments: Seq<RoleAssignment>,
    kept: Seq<Character>,
) -> Seq<Character> {
    good_pool().filter(
        |c: Character|
            !bag_set.contains(c) && !is_drunk_face(assignments, c) && !kept.contains(c),
    )
}

/// Bluffs after Drunk faces were fixed: a bluff that became a face is replaced by a drawn spare
/// one. A table without bluffs stays without.
pub open spec fn bluffs_refiltered(
    rng: SeededRng,
    bag_set: Seq<Character>,
    assignments: Seq<RoleAssignment>,
    bluffs: Seq<Character>,
) -> Seq<Character> {
    if bluffs.len() == 0 || !has_drunk_face(assignments) {
        bluffs
    } else {
        let kept = bluffs_kept(assignments, bluffs);
        let pool = spare_bluffs(bag_set, assignments, kept);
        let order = rng.stream("demon_bluffs_refilter"@).order(pool.len()).0;
        up_to(kept + reordered(pool, order), 3)
    }
}

#[verifier::loop_isolation(false)]
fn find_assignment(assignments: &Vec<RoleAssignment>, seat: SeatId) -> (r: Option<usize>)
    ensures
        match r {
            Some(i) => i < assignments@.len() && assignment_index(assignments@, seat) == Some(
                i as int,
            ),
            None => assignment_index(assignments@, seat) is None,
        },
{
    let mut found: Option<usize> = None;
    let mut i: usize = 0;
    while i < assignments.len()
        invariant
            i <= assignments.len(),
            match found {
                Some(k) => k < i && assignment_index(assignments@.take(i as int), seat) == Some(
                    k as int,
                ),
                None => assignment_index(assignments@.take(i as int), seat) is None,
            },
        decreases assignments.len() - i,
    {
        assert(assignments@.take(i + 1).drop_last() =~= assignments@.take(i as int));
        if found.is_none() && assignments[i].seat == seat {
            found = Some(i);
        }
        i += 1;
    }
    assert(assignments@.take(i as int) =~= assignments@);
    found
}

proof fn face_objection_stands(
    assignments: Seq<RoleAssignment>,
    bag_set: Seq<Character>,
    faces: Seq<(SeatId, Character)>,
    k: int,
)
    requires
        0 <= k <= faces.len(),
        with_faces(assignments, bag_set, faces.take(k)) is Err,
    ensures
        with_faces(assignments, bag_set, faces) == with_faces(assignments, bag_set, faces.take(k)),
    decreases faces.len() - k,
{
    if k < faces.len() {
        assert(faces.take(k + 1).drop_last() =~= faces.take(k));
        face_objection_stands(assignments, bag_set, faces, k + 1);
    } else {
        assert(faces.take(k) =~= faces);
    }
}

/// Put the given faces on the Drunk seats. On `Err` the list is of no further use.
#[verifier::loop_isolation(false)]
fn apply_drunk_face_overrides(
    assignments: &mut Vec<RoleAssignment>,
    bag_set: &Vec<Character>,
    faces: &Vec<(SeatId, Character)>,
) -> (r: Result<(), GameError>)
    ensures
        match with_faces(old(assignments)@, bag_set@, faces@) {
            Ok(dressed) => r is Ok && final(assignments)@ == dressed,
            Err(e) => r == Err::<(), GameError>(e),
        },
{
    let ghost start = assignments@;
    let mut i: usize = 0;
    while i < faces.len()
        invariant
            i <= faces.len(),
            with_faces(start, bag_set@, faces@.take(i as int)) == Ok::<
                Seq<RoleAssignment>,
                GameError,
            >(assignments@),
        decreases faces.len() - i,
    {
        let (seat, face) = faces[i];
        proof {
            assert(faces@.take(i + 1).drop_last() =~= faces@.take(i as int));
            assert(faces@.take(i + 1).last() == (seat, face));
            if with_faces(start, bag_set@, faces@.take(i + 1)) is Err {
                face_objection_stands(start, bag_set@, faces@, i + 1);
            }
        }
        if face.character_type() != CharacterType::Townsfolk {
            return Err(GameError::IllegalAction("drunk face override must be Townsfolk"));
        }
        if holds_character(bag_set, face) {
            return Err(GameError::IllegalAction("drunk face override must not be in the bag"));
        }
        let k = match find_assignment(assignments, seat) {
            Some(k) => k,
            None => return Err(GameError::NoSuchSeat),
        };
        if assignments[k].true_character != Character::Drunk {
            return Err(
                GameError::IllegalAction("drunk face override only valid for Drunk seats"),
            );
        }
        assignments[k].believed_character = Some(face);
        i += 1;
    }
    assert(faces@.take(i as int) =~= faces@);
    Ok(())
}

fn validate_red_herring_override(
    assignments: &Vec<RoleAssignment>,
    bag_set: &Vec<Character>,
    rh: SeatId,
) -> (r: Result<(), GameError>)
    ensures
        r == red_herring_ok(assignments@, bag_set@, rh),
{
    if !holds_character(bag_set, Character::FortuneTeller) {
        return Err(
            GameError::IllegalAction("red_herring override requires Fortune Teller in play"),
        );
    }
    let i = match find_assignment(assignments, rh) {
        Some(i) => i,
        None => return Err(GameError::NoSuchSeat),
    };
    if assignments[i].true_character.team() != Team::Good {
        return Err(GameError::IllegalAction("red_herring must be a good seat"));
    }
    Ok(())
}

#[verifier::loop_isolation(false)]
fn holds_drunk_face(assignments: &Vec<RoleAssignment>, c: Character) -> (b: bool)
    ensures
        b == is_drunk_face(assignments@, c),
{
    let mut i: usize = 0;
    while i < assignments.len()
        invariant
            i <= assignments.len(),
            forall|k: int|
                0 <= k < i ==> !((#[trigger] assignments@[k]).true_character == Character::Drunk
                    && assignments@[k].believed_character == Some(c)),
        decreases assignments.len() - i,
    {
        if assignments[i].true_character == Character::Drunk
            && assignments[i].believed_character == Some(c) {
            return true;
        }
        i += 1;
    }
    false
}

#[verifier::loop_isolation(false)]
fn any_drunk_face(assignments: &Vec<RoleAssignment>) -> (b: bool)
    ensures
        b == has_drunk_face(assignments@),
{
    let mut i: usize = 0;
    while i < assignments.len()
        invariant
            i <= assignments.len(),
            forall|k: int|
                0 <= k < i ==> !((#[trigger] assignments@[k]).true_character == Character::Drunk
                    && assignments@[k].believed_character is Some),
        decreases assignments.len() - i,
    {
        if assignments[i].true_character == Character::Drunk
            && assignments[i].believed_character.is_some() {
            return true;
        }
        i += 1;
    }
    false
}

fn check_bluff(
    bag_set: &Vec<Character>,
    assignments: &Vec<RoleAssignment>,
    c: Character,
) -> (r: Result<
    (),
    GameError,
>)
    ensures
        r == bluff_ok(bag_set@, assignments@, c),
{
    if c.team() != Team::Good {
        return Err(GameError::IllegalAction("demon_bluffs must be good characters"));
    }
    if holds_character(bag_set, c) {
        return Err(GameError::IllegalAction("demon_bluffs must not be in the bag"));
    }
    if holds_drunk_face(assignments, c) {
        return Err(GameError::IllegalAction("demon_bluffs must not match Drunk faces"));
    }
    Ok(())
}

fn validate_demon_bluffs_override(
    bag_set: &Vec<Character>,
    assignments: &Vec<RoleAssignment>,
    bluffs: &Vec<Character>,
) -> (r: Result<(), GameError>)
    ensures
        r == bluffs_ok(bag_set@, assignments@, bluffs@),
{
    if bluffs.len() != 3 {
        return Err(
            GameError::IllegalAction("demon_bluffs override must list exactly 3 characters"),
        );
    }
    if let Err(e) = check_bluff(bag_set, assignments, bluffs[0]) {
        return Err(e);
    }
    if let Err(e) = check_bluff(bag_set, assignments, bluffs[1]) {
        return Err(e);
    }
    check_bluff(bag_set, assignments, bluffs[2])
}

#[verifier::loop_isolation(false)]
fn keep_bluffs(assignments: &Vec<RoleAssignment>, bluffs: &Vec<Character>) -> (v: Vec<Character>)
    ensures
        v@ == bluffs_kept(assignments@, bluffs@),
{
    let ghost keep = |c: Character| !is_drunk_face(assignments@, c);
    let mut v: Vec<Character> = Vec::new();
    let mut i: usize = 0;
    assert(v@ =~= bluffs@.take(0).filter(keep)) by {
        reveal(Seq::filter);
    }
    while i < bluffs.len()
        invariant
            i <= bluffs.len(),
            v@ == bluffs@.take(i as int).filter(keep),
        decreases bluffs.len() - i,
    {
        proof {
            assert(bluffs@.take(i + 1).drop_last() =~= bluffs@.take(i as int));
            reveal(Seq::filter);
        }
        if !holds_drunk_face(assignments, bluffs[i]) {
            v.push(bluffs[i]);
        }
        i += 1;
    }
    assert(bluffs@.take(i as int) =~= bluffs@);
    v
}

#[verifier::loop_isolation(false)]
fn list_spare_bluffs(
    bag_set: &Vec<Character>,
    assignments: &Vec<RoleAssignment>,
    kept: &Vec<Character>,
) -> (v: Vec<Character>)
    ensures
        v@ == spare_bluffs(bag_set@, assignments@, kept@),
{
    let pool = all_good();
    let ghost keep = |c: Character|
        !bag_set@.contains(c) && !is_drunk_face(assignments@, c) && !kept@.contains(c);
    let mut v: Vec<Character> = Vec::new();
    let mut i: usize = 0;
    assert(v@ =~= pool@.take(0).filter(keep)) by {
        reveal(Seq::filter);
    }
    while i < pool.len()
        invariant
            i <= pool.len(),
            v@ == pool@.take(i as int).filter(keep),
        decreases pool.len() - i,
    {
        proof {
            assert(pool@.take(i + 1).drop_last() =~= pool@.take(i as int));
            reveal(Seq::filter);
        }
        let c = pool[i];
        if !holds_character(bag_set, c) && !holds_drunk_face(assignments, c) && !holds_character(
            kept,
            c,
        ) {
            v.push(c);
        }
        i += 1;
    }
    assert(pool@.take(i as int) =~= pool@);
    v
}

/// Drop bluffs that match any Drunk face; fill back to 3 from not-in-play good chars.
///
/// Empty input is left empty: 5–6 player games have no bluff trio (`n >= 7` only),
/// so a `drunk_faces` override must not fabricate bluffs.
fn refilter_demon_bluffs_for_faces(
    rng: &SeededRng,
    bag_set: &Vec<Character>,
    assignments: &Vec<RoleAssignment>,
    bluffs: Vec<Character>,
) -> (v: Vec<Character>)
    ensures
        v@ == bluffs_refiltered(*rng, bag_set@, assignments@, bluffs@),
{
    // Only re-filter a previously populated set (7+). Never invent bluffs from empty.
    if bluffs.len() == 0 {
        return bluffs;
    }
    if !any_drunk_face(assignments) {
        return bluffs;
    }
    let mut kept = keep_bluffs(assignments, &bluffs);
    let pool = list_spare_bluffs(bag_set, assignments, &kept);
    let mut brng = rng.substream("demon_bluffs_refilter");
    let order = brng.shuffled(pool.len());
    let mut spare = reorder(&pool, &order);
    kept.append(&mut spare);
    kept.truncate(3);
    kept
}

// ---------------------------------------------------------------------------
// Dealing characters to seats
// ---------------------------------------------------------------------------

/// A seat that was dealt a character.
pub open spec fn seated(s: Seat, a: RoleAssignment) -> Seat {
    Seat {
        true_character: Some(a.true_character),
        is_drunk_outsider: a.true_character == Character::Drunk,
        believed_character: a.believed_character,
        ..s
    }
}

/// The seats after dealing as far as every assignment names a seat, and whether all did.
pub open spec fn seats_dealt(
    seats: Seq<Seat>,
    assignments: Seq<RoleAssignment>,
) -> (Seq<Seat>, bool)
    decreases assignments.len(),
{
    if assignments.len() == 0 {
        (seats, true)
    } else {
        let (front, all) = seats_dealt(seats, assignments.drop_last());
        let a = assignments.last();
        match seat_of(front, a.seat) {
            Some(s) => if all {
                (with_seat(front, a.seat, seated(s, a)), true)
            } else {
                (front, false)
            },
            None => (front, false),
        }
    }
}

/// What a player is told to be.
pub open spec fn you_are(face: Character) -> PrivateMessageView {
    PrivateMessageView::YouAre {
        character_label: name_of(face),
        team: team_of(face),
        rules_path: rules_path_of(face),
        note: None,
    }
}

/// The inboxes once every seat among `upto` with a face was told it.
pub open spec fn identities_told(boxes: PrivateInboxesView, upto: Seq<Seat>) -> PrivateInboxesView
    decreases upto.len(),
{
    if upto.len() == 0 {
        boxes
    } else {
        let front = identities_told(boxes, upto.drop_last());
        match upto.last().face() {
            Some(face) => front.push(upto.last().id, you_are(face)),
            None => front,
        }
    }
}

impl GameView {
    /// Everyone has a character: identities go out and the first night runs to its first choice.
    pub open spec fn first_night_begun(self) -> GameView {
        let clean = GameView {
            private_inboxes: identities_told(self.private_inboxes, self.seats),
            deaths_tonight: seq![],
            executed_today: None,
            pending_night: None,
            pending_host: None,
            ..self
        }.with_day_votes_reset();
        GameView {
            night_queue: clean.first_night_steps(),
            night_cursor: 0,
            phase: Phase::FirstNight { cursor: 0 },
            ..clean
        }.announce("Night falls. Eyes closed. The first night begins."@).ticked()
    }

    /// Dealing characters and starting the first night. An assignment for a seat that is not
    /// there stops the dealing where it is.
    pub open spec fn dealt_and_begun(self, assignments: Seq<RoleAssignment>) -> (
        GameView,
        Result<(), GameError>,
    ) {
        let (seats, all) = seats_dealt(self.seats, assignments);
        let g = GameView { seats, ..self };
        if all { (g.first_night_begun(), Ok(())) } else { (g, Err(GameError::NoSuchSeat)) }
    }

    /// Who gets which character, and the red herring and bluffs that go with it, before
    /// overrides.
    pub open spec fn bag_for(self, fixed: Option<Vec<RoleAssignment>>) -> Result<
        (Seq<RoleAssignment>, Option<SeatId>, Seq<Character>),
        GameError,
    > {
        let n = (self.seats.len() % 256) as int;
        match fixed {
            Some(list) => match fixed_ok(self.seats.len() as int, list@) {
                Err(e) => Err(e),
                Ok(_) => Ok(
                    (
                        list@,
                        drawn_red_herring(self.rng, list@, characters_of(list@)),
                        drawn_bluffs(self.rng, n, characters_of(list@)),
                    ),
                ),
            },
            None => if playable(n) {
                let bag = drawn_bag(self.rng, n);
                Ok((bag.assignments, bag.red_herring, bag.demon_bluffs))
            } else {
                Err(GameError::BadRequest("player count must be between 5 and 15 inclusive"))
            },
        }
    }

    /// The deal with the host's overrides applied.
    pub open spec fn deal_for(self, opts: StartOpts) -> Result<
        (Seq<RoleAssignment>, Option<SeatId>, Seq<Character>),
        GameError,
    > {
        match self.bag_for(opts.assignments) {
            Err(e) => Err(e),
            Ok((list, herring, bluffs)) => {
                let bag_set = characters_of(list);
                let dressed = match opts.drunk_faces {
                    Some(faces) => with_faces(list, bag_set, faces@),
                    None => Ok(list),
                };
                match dressed {
                    Err(e) => Err(e),
                    Ok(assignments) => {
                        let kept = if opts.drunk_faces is Some {
                            bluffs_refiltered(self.rng, bag_set, assignments, bluffs)
                        } else {
                            bluffs
                        };
                        if opts.red_herring is Some && red_herring_ok(
                            assignments,
                            bag_set,
                            opts.red_herring->0,
                        ) is Err {
                            Err(
                                red_herring_ok(
                                    assignments,
                                    bag_set,
                                    opts.red_herring->0,
                                )->Err_0,
                            )
                        } else if opts.demon_bluffs is Some && bluffs_ok(
                            bag_set,
                            assignments,
                            opts.demon_bluffs->0@,
                        ) is Err {
                            Err(bluffs_ok(bag_set, assignments, opts.demon_bluffs->0@)->Err_0)
                        } else {
                            Ok(
                                (
                                    assignments,
                                    if opts.red_herring is Some { opts.red_herring } else { herring },
                                    if opts.demon_bluffs is Some {
                                        opts.demon_bluffs->0@
                                    } else {
                                        kept
                                    },
                                ),
                            )
                        }
                    },
                }
            },
        }
    }

    /// The host starts the game.
    pub open spec fn started(self, host: Seq<char>, opts: StartOpts) -> (
        GameView,
        Result<(), GameError>,
    ) {
        if !self.is_host(host) {
            (self, Err(GameError::Unauthorized))
        } else if !(self.phase is Lobby) {
            (self, Err(GameError::WrongPhase))
        } else {
            match self.deal_for(opts) {
                Err(e) => (self, Err(e)),
                Ok((assignments, red_herring, demon_bluffs)) => GameView {
                    registration_mode: opts.registration_mode,
                    st_choice_mode: opts.st_choice_mode,
                    red_herring,
                    demon_bluffs,
                    ..self
                }.dealt_and_begun(assignments),
            }
        }
    }

    /// Starting with given characters and no host token: every face is checked first.
    pub open spec fn assigned(self, assignments: Seq<RoleAssignment>) -> (
        GameView,
        Result<(), GameError>,
    ) {
        match faces_ok(assignments) {
            Err(e) => (self, Err(e)),
            Ok(_) => self.dealt_and_begun(assignments),
        }
    }
}

/// The first objection to the faces of a list of assignments.
pub open spec fn faces_ok(assignments: Seq<RoleAssignment>) -> Result<(), GameError>
    decreases assignments.len(),
{
    if assignments.len() == 0 {
        Ok(())
    } else {
        match faces_ok(assignments.drop_last()) {
            Err(e) => Err(e),
            Ok(_) => face_ok(assignments.last()),
        }
    }
}

/// The seats are numbered by their places, as a lobby opens them.
pub open spec fn in_place(seats: Seq<Seat>) -> bool {
    &&& seats.len() <= 256
    &&& forall|i: int| 0 <= i < seats.len() ==> (#[trigger] seats[i]).id == SeatId(i as u8)
}

/// Everyone has a character.
pub open spec fn all_dealt(seats: Seq<Seat>) -> bool {
    forall|i: int| 0 <= i < seats.len() ==> (#[trigger] seats[i]).true_character is Some
}

/// Some assignment is for the seat.
pub open spec fn names_seat(assignments: Seq<RoleAssignment>, seat: int) -> bool {
    exists|k: int| 0 <= k < assignments.len() && (#[trigger] assignments[k]).seat.0 == seat
}

/// One assignment or more for every one of `n` seats, and none for another.
pub open spec fn covers(assignments: Seq<RoleAssignment>, n: nat) -> bool {
    &&& forall|i: int| 0 <= i < assignments.len() ==> (#[trigger] assignments[i]).seat.0 < n
    &&& forall|j: int| 0 <= j < n ==> #[trigger] names_seat(assignments, j)
}

/// The assignments name the same seats in the same order.
spec fn same_seats(a: Seq<RoleAssignment>, b: Seq<RoleAssignment>) -> bool {
    &&& a.len() == b.len()
    &&& forall|i: int| 0 <= i < a.len() ==> (#[trigger] a[i]).seat == b[i].seat
}

proof fn assignment_found_is_there(assignments: Seq<RoleAssignment>, seat: SeatId)
    ensures
        assignment_index(assignments, seat) matches Some(i) ==> 0 <= i < assignments.len(),
    decreases assignments.len(),
{
    if assignments.len() > 0 {
        assignment_found_is_there(assignments.drop_last(), seat);
    }
}

proof fn faces_keep_the_seats(
    assignments: Seq<RoleAssignment>,
    bag_set: Seq<Character>,
    faces: Seq<(SeatId, Character)>,
)
    ensures
        with_faces(assignments, bag_set, faces) matches Ok(dressed) ==> same_seats(
            assignments,
            dressed,
        ),
    decreases faces.len(),
{
    if faces.len() > 0 {
        faces_keep_the_seats(assignments, bag_set, faces.drop_last());
        if let Ok(dressed) = with_faces(assignments, bag_set, faces.drop_last()) {
            assignment_found_is_there(dressed, faces.last().0);
        }
    }
}

proof fn covering_goes_by_the_seats(a: Seq<RoleAssignment>, b: Seq<RoleAssignment>, n: nat)
    requires
        same_seats(a, b),
        covers(a, n),
    ensures
        covers(b, n),
{
    assert forall|i: int| 0 <= i < b.len() implies (#[trigger] b[i]).seat.0 < n by {
        assert(a[i].seat == b[i].seat);
    }
    assert forall|j: int| 0 <= j < n implies #[trigger] names_seat(b, j) by {
        assert(names_seat(a, j));
        let k = choose|k: int| 0 <= k < a.len() && (#[trigger] a[k]).seat.0 == j;
        assert(b[k].seat.0 == j);
    }
}

proof fn fixed_seats_differ(n: int, list: Seq<RoleAssignment>)
    requires
        each_assignment_ok(n, list) is Ok,
    ensures
        forall|i: int| 0 <= i < list.len() ==> (#[trigger] list[i]).seat.0 < n,
        forall|i: int, j: int| 0 <= i < j < list.len() ==> list[i].seat != list[j].seat,
    decreases list.len(),
{
    if list.len() > 0 {
        let front = list.drop_last();
        fixed_seats_differ(n, front);
        assert forall|i: int| 0 <= i < list.len() implies (#[trigger] list[i]).seat.0 < n by {
            if i < front.len() {
                assert(front[i] == list[i]);
            }
        }
        assert forall|i: int, j: int| 0 <= i < j < list.len() implies list[i].seat
            != list[j].seat by {
            assert(front[i] == list[i]);
            if j < front.len() {
                assert(front[j] == list[j]);
            }
        }
    }
}

/// As many different seats as there are leave none out.
proof fn fixed_lists_cover(list: Seq<RoleAssignment>)
    requires
        fixed_ok(list.len() as int, list) is Ok,
    ensures
        covers(list, list.len()),
{
    let n = list.len() as int;
    fixed_seats_differ(n, list);
    let places = list.map_values(|a: RoleAssignment| a.seat.0 as int);
    let all = vstd::set_lib::set_int_range(0, n);
    vstd::set_lib::lemma_int_range(0, n);
    assert(places.no_duplicates()) by {
        assert forall|i: int, j: int|
            0 <= i < places.len() && 0 <= j < places.len() && i != j implies places[i]
            != places[j] by {
            if i < j {
                assert(list[i].seat != list[j].seat);
            } else {
                assert(list[j].seat != list[i].seat);
            }
        }
    }
    places.unique_seq_to_set();
    assert forall|p: int| places.to_set().contains(p) implies all.contains(p) by {
        let i = choose|i: int| 0 <= i < places.len() && places[i] == p;
        assert(list[i].seat.0 < n);
    }
    vstd::set_lib::lemma_subset_equality(places.to_set(), all);
    assert forall|j: int| 0 <= j < n implies #[trigger] names_seat(list, j) by {
        assert(places.to_set().contains(j));
        let k = choose|k: int| 0 <= k < places.len() && places[k] == j;
        assert(list[k].seat.0 == j);
    }
}

proof fn dealing_reaches_the_named(seats: Seq<Seat>, list: Seq<RoleAssignment>)
    requires
        in_place(seats),
        forall|i: int| 0 <= i < list.len() ==> (#[trigger] list[i]).seat.0 < seats.len(),
    ensures
        ({
            let (after, all) = seats_dealt(seats, list);
            &&& all
            &&& after.len() == seats.len()
            &&& in_place(after)
            &&& forall|k: int|
                0 <= k < list.len() ==> after[(#[trigger] list[k]).seat.0 as int].true_character
                    is Some
        }),
    decreases list.len(),
{
    if list.len() > 0 {
        let front = list.drop_last();
        assert forall|i: int| 0 <= i < front.len() implies (#[trigger] front[i]).seat.0
            < seats.len() by {
            assert(front[i] == list[i]);
        }
        dealing_reaches_the_named(seats, front);
        let before = seats_dealt(seats, front).0;
        let a = list.last();
        assert(list[list.len() - 1] == a);
        seat_index_is_first(before, a.seat);
        assert(before[a.seat.0 as int].id == a.seat);
        let after = seats_dealt(seats, list).0;
        assert forall|k: int| 0 <= k < list.len() implies after[(
        #[trigger] list[k]).seat.0 as int].true_character is Some by {
            if k < front.len() {
                assert(front[k] == list[k]);
            }
        }
    }
}

/// Dealing to every seat of a table in place succeeds, and everyone has a character from then on.
proof fn covering_deals_begin(g: GameView, list: Seq<RoleAssignment>)
    requires
        in_place(g.seats),
        covers(list, g.seats.len()),
    ensures
        g.dealt_and_begun(list).1 is Ok,
        all_dealt(g.dealt_and_begun(list).0.seats),
{
    dealing_reaches_the_named(g.seats, list);
    let h = GameView { seats: seats_dealt(g.seats, list).0, ..g };
    assert(all_dealt(h.seats)) by {
        assert forall|j: int| 0 <= j < h.seats.len() implies (
        #[trigger] h.seats[j]).true_character is Some by {
            assert(names_seat(list, j));
            let k = choose|k: int| 0 <= k < list.len() && (#[trigger] list[k]).seat.0 == j;
            assert(h.seats[list[k].seat.0 as int].true_character is Some);
        }
    }
    first_night_continues(h);
    let after = h.first_night_begun();
    assert forall|i: int| 0 <= i < after.seats.len() implies (
    #[trigger] after.seats[i]).true_character is Some by {
        assert(h.seats[i].true_character is Some);
    }
}

proof fn face_check_stands(assignments: Seq<RoleAssignment>, k: int)
    requires
        0 <= k <= assignments.len(),
        faces_ok(assignments.take(k)) is Err,
    ensures
        faces_ok(assignments) == faces_ok(assignments.take(k)),
    decreases assignments.len() - k,
{
    if k < assignments.len() {
        assert(assignments.take(k + 1).drop_last() =~= assignments.take(k));
        face_check_stands(assignments, k + 1);
    } else {
        assert(assignments.take(k) =~= assignments);
    }
}

proof fn dealing_stops(seats: Seq<Seat>, assignments: Seq<RoleAssignment>, k: int)
    requires
        0 <= k <= assignments.len(),
        !seats_dealt(seats, assignments.take(k)).1,
    ensures
        seats_dealt(seats, assignments) == seats_dealt(seats, assignments.take(k)),
    decreases assignments.len() - k,
{
    if k < assignments.len() {
        assert(assignments.take(k + 1).drop_last() =~= assignments.take(k));
        dealing_stops(seats, assignments, k + 1);
    } else {
        assert(assignments.take(k) =~= assignments);
    }
}

#[verifier::loop_isolation(false)]
fn list_characters(assignments: &Vec<RoleAssignment>) -> (v: Vec<Character>)
    ensures
        v@ == characters_of(assignments@),
{
    let mut v: Vec<Character> = Vec::new();
    let mut i: usize = 0;
    while i < assignments.len()
        invariant
            i <= assignments.len(),
            v@.len() == i,
            forall|k: int| 0 <= k < i ==> #[trigger] v@[k] == assignments@[k].true_character,
        decreases assignments.len() - i,
    {
        v.push(assignments[i].true_character);
        i += 1;
    }
    assert(v@ =~= characters_of(assignments@));
    v
}

impl Game {
    /// Host-only start: build bag (or apply fixed assignments), brief seats, enter First Night.
    pub fn start_game(&mut self, host: &Token, opts: StartOpts) -> (r: Result<(), GameError>)
        ensures
            (final(self)@, r) == old(self)@.started(host@, opts),
            // At a table that a lobby opened nothing but the host check, the phase and the deal
            // stands in the way, and then everyone has a character.
            in_place(old(self)@.seats) ==> (r is Ok <==> old(self)@.is_host(host@) && old(
                self,
            )@.phase is Lobby && old(self)@.deal_for(opts) is Ok),
            in_place(old(self)@.seats) && r is Ok ==> all_dealt(final(self)@.seats),
    {
        match self.tokens.resolve(host) {
            Some(Actor::Host) => {},
            _ => return Err(GameError::Unauthorized),
        }
        match self.phase {
            Phase::Lobby => {},
            _ => return Err(GameError::WrongPhase),
        }
        let n: u8 = (self.seats.len() % 256) as u8;
        let (mut assignments, mut red_herring, mut demon_bluffs) = match opts.assignments {
            Some(fixed) => {
                if let Err(e) = validate_fixed_assignments(self.seats.len(), &fixed) {
                    return Err(e);
                }
                proof {
                    fixed_lists_cover(fixed@);
                }
                let bag_set = list_characters(&fixed);
                let (red_herring, demon_bluffs) = setup_markers(&self.rng, n, &fixed, &bag_set);
                (fixed, red_herring, demon_bluffs)
            },
            None => match build_bag(&self.rng, n) {
                Ok(bag) => {
                    proof {
                        let dealt_out = bag.assignments@;
                        assert forall|j: int| 0 <= j < n implies #[trigger] names_seat(
                            dealt_out,
                            j,
                        ) by {
                            assert(dealt_out[j].seat.0 == j);
                        }
                        assert(covers(dealt_out, n as nat));
                    }
                    (bag.assignments, bag.red_herring, bag.demon_bluffs)
                },
                Err(e) => return Err(e),
            },
        };
        let ghost drawn = assignments@;
        let bag_set = list_characters(&assignments);
        if let Some(faces) = &opts.drunk_faces {
            if let Err(e) = apply_drunk_face_overrides(&mut assignments, &bag_set, faces) {
                return Err(e);
            }
            // Auto-generated bluffs may collide with overridden faces — re-filter.
            demon_bluffs = refilter_demon_bluffs_for_faces(
                &self.rng,
                &bag_set,
                &assignments,
                demon_bluffs,
            );
        }
        if let Some(rh) = opts.red_herring {
            if let Err(e) = validate_red_herring_override(&assignments, &bag_set, rh) {
                return Err(e);
            }
            red_herring = Some(rh);
        }
        if let Some(bluffs) = opts.demon_bluffs {
            if let Err(e) = validate_demon_bluffs_override(&bag_set, &assignments, &bluffs) {
                return Err(e);
            }
            demon_bluffs = bluffs;
        }
        self.registration_mode = opts.registration_mode;
        self.st_choice_mode = opts.st_choice_mode;
        self.red_herring = red_herring;
        self.demon_bluffs = demon_bluffs;
        proof {
            if in_place(self@.seats) {
                if let Some(faces) = opts.drunk_faces {
                    faces_keep_the_seats(drawn, bag_set@, faces@);
                    covering_goes_by_the_seats(drawn, assignments@, self@.seats.len());
                }
                covering_deals_begin(self@, assignments@);
            }
        }
        self.apply_assignments_and_brief(assignments)
    }

    /// Assign characters and push private `YouAre` using **player-facing** identity only.
    ///
    /// Does not require host token (used by tests and as the final step of
    /// [`Self::start_game`]).
    #[verifier::loop_isolation(false)]
    pub fn start_game_assign(&mut self, assignments: Vec<RoleAssignment>) -> (r: Result<
        (),
        GameError,
    >)
        ensures
            (final(self)@, r) == old(self)@.assigned(assignments@),
    {
        let mut i: usize = 0;
        while i < assignments.len()
            invariant
                i <= assignments.len(),
                self@ == old(self)@,
                faces_ok(assignments@.take(i as int)) is Ok,
            decreases assignments.len() - i,
        {
            proof {
                assert(assignments@.take(i + 1).drop_last() =~= assignments@.take(i as int));
                if faces_ok(assignments@.take(i + 1)) is Err {
                    face_check_stands(assignments@, i + 1);
                }
            }
            if let Err(e) = check_face(&assignments[i]) {
                return Err(e);
            }
            i += 1;
        }
        assert(assignments@.take(i as int) =~= assignments@);
        self.apply_assignments_and_brief(assignments)
    }

    #[verifier::loop_isolation(false)]
    fn apply_assignments_and_brief(&mut self, assignments: Vec<RoleAssignment>) -> (r: Result<
        (),
        GameError,
    >)
        ensures
            (final(self)@, r) == old(self)@.dealt_and_begun(assignments@),
    {
        let ghost before = self@;
        let mut i: usize = 0;
        while i < assignments.len()
            invariant
                i <= assignments.len(),
                self@ == (GameView { seats: self@.seats, ..before }),
                (self@.seats, true) == seats_dealt(before.seats, assignments@.take(i as int)),
            decreases assignments.len() - i,
        {
            let a = assignments[i];
            proof {
                assert(assignments@.take(i + 1).drop_last() =~= assignments@.take(i as int));
                if !seats_dealt(before.seats, assignments@.take(i + 1)).1 {
                    dealing_stops(before.seats, assignments@, i + 1);
                }
            }
            let k = match find_seat(&self.seats, a.seat) {
                Some(k) => k,
                None => return Err(GameError::NoSuchSeat),
            };
            let ghost now = self@.seats;
            self.seats[k].true_character = Some(a.true_character);
            self.seats[k].is_drunk_outsider = a.true_character == Character::Drunk;
            self.seats[k].believed_character = a.believed_character;
            assert(self@.seats =~= with_seat(now, a.seat, seated(now[k as int], a)));
            i += 1;
        }
        assert(assignments@.take(i as int) =~= assignments@);
        self.tell_identities();
        self.deaths_tonight = Vec::new();
        self.executed_today = None;
        crate::game::day::reset_day_vote_state(self);
        self.pending_night = None;
        self.pending_host = None;
        self.night_queue = build_first_night_queue(self);
        self.night_cursor = 0;
        self.phase = Phase::FirstNight { cursor: 0 };
        self.st_announce("Night falls. Eyes closed. The first night begins.".to_owned());
        // Auto ST steps (setup, evil briefings, info steps) until a choice or dawn.
        self.night_tick();
        Ok(())
    }

    /// Tell every seat the character it is to play, by face and never by true character.
    #[verifier::loop_isolation(false)]
    fn tell_identities(&mut self)
        ensures
            final(self)@ == (GameView {
                private_inboxes: identities_told(old(self)@.private_inboxes, old(self)@.seats),
                ..old(self)@
            }),
    {
        let ghost before = self@;
        let mut i: usize = 0;
        while i < self.seats.len()
            invariant
                i <= self.seats.len(),
                self@ == (GameView {
                    private_inboxes: identities_told(
                        before.private_inboxes,
                        before.seats.take(i as int),
                    ),
                    ..before
                }),
            decreases self.seats.len() - i,
        {
            assert(before.seats.take(i + 1).drop_last() =~= before.seats.take(i as int));
            // Team is derived from the FACE, never true_character, so a Drunk's briefing
            // can never diverge from the face even if the Team mapping later changes.
            if let Some(facing) = self.seats[i].visible_character() {
                let id = self.seats[i].id;
                self.private_inboxes.push(
                    id,
                    PrivateMessage::YouAre {
                        character_label: facing.display_name().to_owned(),
                        team: facing.team(),
                        rules_path: facing.rules_doc_path().to_owned(),
                        note: None,
                    },
                );
            }
            i += 1;
        }
        assert(before.seats.take(i as int) =~= before.seats);
    }

    /// Sketch helper: plain (seat, character) pairs. Drunk is rejected — use
    /// [`RoleAssignment::drunk`].
    #[verifier::loop_isolation(false)]
    pub fn start_game_assign_for_sketch(
        &mut self,
        assignments: Vec<(SeatId, Character)>,
    ) -> (r: Result<
        (),
        GameError,
    >)
        ensures
            (final(self)@, r) == if exists|i: int|
                0 <= i < assignments@.len() && (#[trigger] assignments@[i]).1 == Character::Drunk {
                (
                    old(self)@,
                    Err::<(), GameError>(
                        GameError::IllegalAction(
                            "use RoleAssignment::drunk(seat, townsfolk_face) for Drunk",
                        ),
                    ),
                )
            } else {
                old(self)@.assigned(
                    assignments@.map_values(
                        |p: (SeatId, Character)|
                            RoleAssignment {
                                seat: p.0,
                                true_character: p.1,
                                believed_character: None,
                            },
                    ),
                )
            },
    {
        let mut mapped: Vec<RoleAssignment> = Vec::new();
        let mut i: usize = 0;
        while i < assignments.len()
            invariant
                i <= assignments.len(),
                self@ == old(self)@,
                mapped@.len() == i,
                forall|k: int|
                    0 <= k < i ==> (#[trigger] assignments@[k]).1 != Character::Drunk && mapped@[k]
                        == (RoleAssignment {
                        seat: assignments@[k].0,
                        true_character: assignments@[k].1,
                        believed_character: None,
                    }),
            decreases assignments.len() - i,
        {
            let (seat, c) = assignments[i];
            if c == Character::Drunk {
                assert(assignments@[i as int].1 == Character::Drunk);
                return Err(
                    GameError::IllegalAction(
                        "use RoleAssignment::drunk(seat, townsfolk_face) for Drunk",
                    ),
                );
            }
            mapped.push(RoleAssignment::normal(seat, c));
            i += 1;
        }
        assert(mapped@ =~= assignments@.map_values(
            |p: (SeatId, Character)|
                RoleAssignment { seat: p.0, true_character: p.1, believed_character: None },
        ));
        self.start_game_assign(mapped)
    }
}

} // verus!
