//! Reading tool arguments.

use crate::auth::Token;
use crate::error::{GameError, ToolError};
use crate::game::ids::{GameId, SeatId};
use crate::game::night::NightActionPayload;
use crate::game::setup::StartOpts;
use crate::game::st_policy::{HostDecision, MayorRedirectChoice, RegistrationMode, StChoiceMode};
use crate::game::state::RoleAssignment;
use crate::json::{items_view, opt_json, Json, JsonView};
use crate::roles::{type_of, Character, CharacterType};
use crate::text::{drop_char, lowered, str_eq, texts, to_lower, trim, trimmed, without};
use crate::tools::DayActionPayload;
use vstd::prelude::*;
use vstd::string::*;

verus! {

/// A JSON-RPC error.
#[derive(Debug)]
pub struct RpcError {
    pub code: i64,
    pub message: String,
}

/// What a JSON-RPC error says.
pub struct RpcErrorView {
    pub code: i64,
    pub message: Seq<char>,
}

impl View for RpcError {
    type V = RpcErrorView;

    open spec fn view(&self) -> RpcErrorView {
        RpcErrorView { code: self.code, message: self.message@ }
    }
}

/// A result with its error as it reads.
pub open spec fn read<T>(r: Result<T, RpcError>) -> Result<T, RpcErrorView> {
    match r {
        Ok(t) => Ok(t),
        Err(e) => Err(e@),
    }
}

/// The error for arguments that cannot be read.
pub open spec fn invalid(message: Seq<char>) -> RpcErrorView {
    RpcErrorView { code: -32602i64, message }
}

/// The error for a tool that refused.
pub open spec fn tool_fault(e: ToolError) -> RpcErrorView {
    RpcErrorView {
        code: match e {
            ToolError::Unauthorized => -32001i64,
            ToolError::BadRequest(_) => -32002i64,
            ToolError::Game(_) => -32003i64,
        },
        message: e.wording(),
    }
}

pub fn tool_err(e: ToolError) -> (r: RpcError)
    ensures
        r@ == tool_fault(e),
{
    let code: i64 = match e {
        ToolError::Unauthorized => -32001,
        ToolError::BadRequest(_) => -32002,
        ToolError::Game(_) => -32003,
    };
    RpcError { code, message: e.message() }
}

pub fn invalid_params(msg: &str) -> (r: RpcError)
    ensures
        r@ == invalid(msg@),
{
    RpcError { code: -32602, message: msg.to_owned() }
}

fn invalid_named(prefix: &str, name: &str) -> (r: RpcError)
    ensures
        r@ == invalid(prefix@ + name@),
{
    let mut message = prefix.to_owned();
    message.append(name);
    RpcError { code: -32602, message }
}

// ---------------------------------------------------------------------------
// Ids and tokens
// ---------------------------------------------------------------------------

/// The game that the arguments name.
pub open spec fn game_id_of(args: JsonView) -> Result<GameId, RpcErrorView> {
    match args.uint_at("game_id"@) {
        Some(id) => Ok(GameId(id)),
        None => Err(invalid("missing game_id (u64)"@)),
    }
}

pub fn require_game_id(args: &Json) -> (r: Result<GameId, RpcError>)
    ensures
        read(r) == game_id_of(args@),
{
    match args.u64_at("game_id") {
        Some(id) => Ok(GameId(id)),
        None => Err(invalid_params("missing game_id (u64)")),
    }
}

/// The token that the arguments carry: `token` before `host_token` before `player_token`.
pub open spec fn any_token_of(args: JsonView) -> Result<Seq<char>, RpcErrorView> {
    if args.text_at("token"@) is Some {
        Ok(args.text_at("token"@)->0)
    } else if args.text_at("host_token"@) is Some {
        Ok(args.text_at("host_token"@)->0)
    } else if args.text_at("player_token"@) is Some {
        Ok(args.text_at("player_token"@)->0)
    } else {
        Err(invalid("missing token (or host_token / player_token)"@))
    }
}

/// The token of a host request: `host_token` first, then any.
pub open spec fn host_token_of(args: JsonView) -> Result<Seq<char>, RpcErrorView> {
    match args.text_at("host_token"@) {
        Some(t) => Ok(t),
        None => any_token_of(args),
    }
}

/// A read token says what the arguments say.
pub open spec fn read_token(r: Result<Token, RpcError>) -> Result<Seq<char>, RpcErrorView> {
    match r {
        Ok(t) => Ok(t@),
        Err(e) => Err(e@),
    }
}

/// Prefer `token`, fall back to `host_token` / `player_token`.
pub fn any_token(args: &Json) -> (r: Result<Token, RpcError>)
    ensures
        read_token(r) == any_token_of(args@),
{
    if let Some(s) = args.str_at("token") {
        return Ok(Token::from_shared(s));
    }
    if let Some(s) = args.str_at("host_token") {
        return Ok(Token::from_shared(s));
    }
    if let Some(s) = args.str_at("player_token") {
        return Ok(Token::from_shared(s));
    }
    Err(invalid_params("missing token (or host_token / player_token)"))
}

/// Prefer `host_token`, fall back to any token.
pub fn host_token(args: &Json) -> (r: Result<Token, RpcError>)
    ensures
        read_token(r) == host_token_of(args@),
{
    match args.str_at("host_token") {
        Some(s) => Ok(Token::from_shared(s)),
        None => any_token(args),
    }
}

/// The seat that a value names.
pub open spec fn seat_in(v: JsonView) -> Result<SeatId, RpcErrorView> {
    match v.uint() {
        None => Err(invalid("seat id must be number"@)),
        Some(n) => if n > 255 {
            Err(invalid("seat id out of range"@))
        } else {
            Ok(SeatId(n as u8))
        },
    }
}

pub fn seat_id(v: &Json) -> (r: Result<SeatId, RpcError>)
    ensures
        read(r) == seat_in(v@),
{
    match v.as_u64() {
        None => Err(invalid_params("seat id must be number")),
        Some(n) => {
            if n > 255 {
                return Err(invalid_params("seat id out of range"));
            }
            Ok(SeatId(n as u8))
        },
    }
}

/// The seat under an optional value, or an error that says what is missing.
pub open spec fn seat_or(v: Option<JsonView>, missing: Seq<char>) -> Result<SeatId, RpcErrorView> {
    match v {
        None => Err(invalid(missing)),
        Some(j) => seat_in(j),
    }
}

pub fn require_seat(v: Option<&Json>, missing: &str) -> (r: Result<SeatId, RpcError>)
    ensures
        read(r) == seat_or(opt_json(v), missing@),
{
    match v {
        None => Err(invalid_params(missing)),
        Some(j) => seat_id(j),
    }
}

/// The text of an optional value.
pub open spec fn text_of(v: Option<JsonView>) -> Option<Seq<char>> {
    match v {
        Some(j) => j.text(),
        None => None,
    }
}

/// The text of an optional value.
pub fn str_of(v: Option<&Json>) -> (r: Option<&str>)
    ensures
        match r {
            Some(s) => text_of(opt_json(v)) == Some(s@),
            None => text_of(opt_json(v)) is None,
        },
{
    match v {
        Some(j) => j.as_str(),
        None => None,
    }
}

// ---------------------------------------------------------------------------
// Characters
// ---------------------------------------------------------------------------

/// A character name as it is looked up: trimmed, in lower case, without spaces, `_` and `-`.
pub open spec fn character_key(name: Seq<char>) -> Seq<char> {
    without(without(without(lowered(trimmed(name)), ' '), '_'), '-')
}

/// The character with this key.
pub open spec fn character_for(key: Seq<char>) -> Option<Character> {
    if key == "washerwoman"@ {
        Some(Character::Washerwoman)
    } else if key == "librarian"@ {
        Some(Character::Librarian)
    } else if key == "investigator"@ {
        Some(Character::Investigator)
    } else if key == "chef"@ {
        Some(Character::Chef)
    } else if key == "empath"@ {
        Some(Character::Empath)
    } else if key == "fortuneteller"@ {
        Some(Character::FortuneTeller)
    } else if key == "undertaker"@ {
        Some(Character::Undertaker)
    } else if key == "monk"@ {
        Some(Character::Monk)
    } else if key == "ravenkeeper"@ {
        Some(Character::Ravenkeeper)
    } else if key == "virgin"@ {
        Some(Character::Virgin)
    } else if key == "slayer"@ {
        Some(Character::Slayer)
    } else if key == "soldier"@ {
        Some(Character::Soldier)
    } else if key == "mayor"@ {
        Some(Character::Mayor)
    } else if key == "butler"@ {
        Some(Character::Butler)
    } else if key == "drunk"@ {
        Some(Character::Drunk)
    } else if key == "recluse"@ {
        Some(Character::Recluse)
    } else if key == "saint"@ {
        Some(Character::Saint)
    } else if key == "poisoner"@ {
        Some(Character::Poisoner)
    } else if key == "spy"@ {
        Some(Character::Spy)
    } else if key == "scarletwoman"@ {
        Some(Character::ScarletWoman)
    } else if key == "baron"@ {
        Some(Character::Baron)
    } else if key == "imp"@ {
        Some(Character::Imp)
    } else {
        None
    }
}

/// The character of this name.
pub open spec fn character_named(name: Seq<char>) -> Result<Character, RpcErrorView> {
    match character_for(character_key(name)) {
        Some(c) => Ok(c),
        None => Err(invalid("unknown character: "@ + name)),
    }
}

pub fn parse_character(name: &str) -> (r: Result<Character, RpcError>)
    ensures
        read(r) == character_named(name@),
{
    let low = to_lower(trim(name).as_str());
    let a = drop_char(low.as_str(), ' ');
    let b = drop_char(a.as_str(), '_');
    let norm = drop_char(b.as_str(), '-');
    let key = norm.as_str();
    let c = if str_eq(key, "washerwoman") {
        Character::Washerwoman
    } else if str_eq(key, "librarian") {
        Character::Librarian
    } else if str_eq(key, "investigator") {
        Character::Investigator
    } else if str_eq(key, "chef") {
        Character::Chef
    } else if str_eq(key, "empath") {
        Character::Empath
    } else if str_eq(key, "fortuneteller") {
        Character::FortuneTeller
    } else if str_eq(key, "undertaker") {
        Character::Undertaker
    } else if str_eq(key, "monk") {
        Character::Monk
    } else if str_eq(key, "ravenkeeper") {
        Character::Ravenkeeper
    } else if str_eq(key, "virgin") {
        Character::Virgin
    } else if str_eq(key, "slayer") {
        Character::Slayer
    } else if str_eq(key, "soldier") {
        Character::Soldier
    } else if str_eq(key, "mayor") {
        Character::Mayor
    } else if str_eq(key, "butler") {
        Character::Butler
    } else if str_eq(key, "drunk") {
        Character::Drunk
    } else if str_eq(key, "recluse") {
        Character::Recluse
    } else if str_eq(key, "saint") {
        Character::Saint
    } else if str_eq(key, "poisoner") {
        Character::Poisoner
    } else if str_eq(key, "spy") {
        Character::Spy
    } else if str_eq(key, "scarletwoman") {
        Character::ScarletWoman
    } else if str_eq(key, "baron") {
        Character::Baron
    } else if str_eq(key, "imp") {
        Character::Imp
    } else {
        return Err(invalid_named("unknown character: ", name));
    };
    Ok(c)
}

/// The character under an optional text, or an error that says what is missing.
pub open spec fn character_or(v: Option<Seq<char>>, missing: Seq<char>) -> Result<
    Character,
    RpcErrorView,
> {
    match v {
        None => Err(invalid(missing)),
        Some(name) => character_named(name),
    }
}

fn require_character(v: Option<&str>, missing: &str) -> (r: Result<Character, RpcError>)
    ensures
        read(r) == character_or(
            match v {
                Some(s) => Some(s@),
                None => None,
            },
            missing@,
        ),
{
    match v {
        None => Err(invalid_params(missing)),
        Some(name) => parse_character(name),
    }
}

// ---------------------------------------------------------------------------
// Lists
// ---------------------------------------------------------------------------

/// Every item read in order, or the first error.
pub open spec fn read_all<T>(
    items: Seq<JsonView>,
    f: spec_fn(JsonView) -> Result<T, RpcErrorView>,
) -> Result<Seq<T>, RpcErrorView>
    decreases items.len(),
{
    if items.len() == 0 {
        Ok(seq![])
    } else {
        match read_all(items.drop_last(), f) {
            Err(e) => Err(e),
            Ok(front) => match f(items.last()) {
                Err(e) => Err(e),
                Ok(t) => Ok(front.push(t)),
            },
        }
    }
}

/// The first error among the items stands, whatever follows.
pub proof fn first_error_stands<T>(
    items: Seq<JsonView>,
    f: spec_fn(JsonView) -> Result<T, RpcErrorView>,
    k: int,
)
    requires
        0 <= k <= items.len(),
        read_all(items.take(k), f) is Err,
    ensures
        read_all(items, f) == read_all(items.take(k), f),
    decreases items.len() - k,
{
    if k < items.len() {
        assert(items.take(k + 1).drop_last() =~= items.take(k));
        first_error_stands(items, f, k + 1);
    } else {
        assert(items.take(k) =~= items);
    }
}

/// An optional list, read item by item.
pub open spec fn read_list<T>(
    items: Option<Seq<JsonView>>,
    f: spec_fn(JsonView) -> Result<T, RpcErrorView>,
) -> Result<Option<Seq<T>>, RpcErrorView> {
    match items {
        None => Ok(None),
        Some(s) => match read_all(s, f) {
            Ok(v) => Ok(Some(v)),
            Err(e) => Err(e),
        },
    }
}

/// A read list says what its items say.
pub open spec fn list_view<T>(r: Result<Option<Vec<T>>, RpcError>) -> Result<
    Option<Seq<T>>,
    RpcErrorView,
> {
    match r {
        Ok(Some(v)) => Ok(Some(v@)),
        Ok(None) => Ok(None),
        Err(e) => Err(e@),
    }
}

/// One entry of `assignments`.
pub open spec fn assignment_in(item: JsonView) -> Result<RoleAssignment, RpcErrorView> {
    match seat_or(item.either("seat"@, "seat_id"@), "assignment.seat required"@) {
        Err(e) => Err(e),
        Ok(seat) => match character_or(
            text_of(item.either("character"@, "true_character"@)),
            "assignment.character required"@,
        ) {
            Err(e) => Err(e),
            Ok(true_character) => match text_of(item.either("believed"@, "believed_character"@)) {
                None => if true_character == Character::Drunk {
                    Err(
                        invalid(
                            "Drunk assignment requires believed/believed_character Townsfolk face"@,
                        ),
                    )
                } else {
                    Ok(RoleAssignment { seat, true_character, believed_character: None })
                },
                Some(name) => match character_named(name) {
                    Err(e) => Err(e),
                    Ok(face) => if true_character != Character::Drunk {
                        Ok(RoleAssignment { seat, true_character, believed_character: None })
                    } else if type_of(face) != CharacterType::Townsfolk {
                        Err(
                            tool_fault(
                                ToolError::Game(
                                    GameError::IllegalAction(
                                        "Drunk face must be a Townsfolk character",
                                    ),
                                ),
                            ),
                        )
                    } else {
                        Ok(
                            RoleAssignment {
                                seat,
                                true_character,
                                believed_character: Some(face),
                            },
                        )
                    },
                },
            },
        },
    }
}

fn parse_assignment(item: &Json) -> (r: Result<RoleAssignment, RpcError>)
    ensures
        read(r) == assignment_in(item@),
{
    let seat = match require_seat(item.get_either("seat", "seat_id"), "assignment.seat required") {
        Ok(s) => s,
        Err(e) => return Err(e),
    };
    let name = str_of(item.get_either("character", "true_character"));
    let true_c = match require_character(name, "assignment.character required") {
        Ok(c) => c,
        Err(e) => return Err(e),
    };
    let believed = match str_of(item.get_either("believed", "believed_character")) {
        Some(n) => match parse_character(n) {
            Ok(c) => Some(c),
            Err(e) => return Err(e),
        },
        None => None,
    };
    if true_c == Character::Drunk {
        match believed {
            None => Err(
                invalid_params(
                    "Drunk assignment requires believed/believed_character Townsfolk face",
                ),
            ),
            Some(face) => match RoleAssignment::drunk(seat, face) {
                Ok(a) => Ok(a),
                Err(e) => Err(tool_err(ToolError::Game(e))),
            },
        }
    } else {
        Ok(RoleAssignment::normal(seat, true_c))
    }
}

/// One entry of `drunk_faces`.
pub open spec fn face_in(item: JsonView) -> Result<(SeatId, Character), RpcErrorView> {
    match seat_or(item.either("seat"@, "seat_id"@), "drunk_faces.seat required"@) {
        Err(e) => Err(e),
        Ok(seat) => match character_or(
            text_of(item.either("face"@, "character"@)),
            "drunk_faces.face required"@,
        ) {
            Err(e) => Err(e),
            Ok(face) => Ok((seat, face)),
        },
    }
}

fn parse_face(item: &Json) -> (r: Result<(SeatId, Character), RpcError>)
    ensures
        read(r) == face_in(item@),
{
    let seat = match require_seat(item.get_either("seat", "seat_id"), "drunk_faces.seat required") {
        Ok(s) => s,
        Err(e) => return Err(e),
    };
    match require_character(
        str_of(item.get_either("face", "character")),
        "drunk_faces.face required",
    ) {
        Ok(face) => Ok((seat, face)),
        Err(e) => Err(e),
    }
}

/// One entry of `demon_bluffs`.
pub open spec fn bluff_in(item: JsonView) -> Result<Character, RpcErrorView> {
    character_or(item.text(), "demon_bluffs entries must be character names"@)
}

fn parse_bluff(item: &Json) -> (r: Result<Character, RpcError>)
    ensures
        read(r) == bluff_in(item@),
{
    require_character(item.as_str(), "demon_bluffs entries must be character names")
}

#[verifier::loop_isolation(false)]
fn parse_assignments(args: &Json) -> (r: Result<Option<Vec<RoleAssignment>>, RpcError>)
    ensures
        list_view(r) == read_list(
            args@.items_at("assignments"@),
            |j: JsonView| assignment_in(j),
        ),
{
    let items = match args.array_at("assignments") {
        Some(v) => v,
        None => return Ok(None),
    };
    let ghost f = |j: JsonView| assignment_in(j);
    let ghost all = items_view(items@);
    let mut out: Vec<RoleAssignment> = Vec::new();
    let mut i: usize = 0;
    while i < items.len()
        invariant
            i <= items@.len(),
            read_all(all.take(i as int), f) == Ok::<Seq<RoleAssignment>, RpcErrorView>(out@),
        decreases items@.len() - i,
    {
        proof {
            assert(all.take(i + 1).drop_last() =~= all.take(i as int));
            assert(all.take(i + 1).last() == items@[i as int]@);
            if read_all(all.take(i + 1), f) is Err {
                first_error_stands(all, f, i + 1);
            }
        }
        match parse_assignment(&items[i]) {
            Ok(a) => out.push(a),
            Err(e) => return Err(e),
        }
        i += 1;
    }
    assert(all.take(i as int) =~= all);
    Ok(Some(out))
}

#[verifier::loop_isolation(false)]
fn parse_drunk_faces(args: &Json) -> (r: Result<Option<Vec<(SeatId, Character)>>, RpcError>)
    ensures
        list_view(r) == read_list(args@.items_at("drunk_faces"@), |j: JsonView| face_in(j)),
{
    let items = match args.array_at("drunk_faces") {
        Some(v) => v,
        None => return Ok(None),
    };
    let ghost f = |j: JsonView| face_in(j);
    let ghost all = items_view(items@);
    let mut out: Vec<(SeatId, Character)> = Vec::new();
    let mut i: usize = 0;
    while i < items.len()
        invariant
            i <= items@.len(),
            read_all(all.take(i as int), f) == Ok::<Seq<(SeatId, Character)>, RpcErrorView>(out@),
        decreases items@.len() - i,
    {
        proof {
            assert(all.take(i + 1).drop_last() =~= all.take(i as int));
            assert(all.take(i + 1).last() == items@[i as int]@);
            if read_all(all.take(i + 1), f) is Err {
                first_error_stands(all, f, i + 1);
            }
        }
        match parse_face(&items[i]) {
            Ok(a) => out.push(a),
            Err(e) => return Err(e),
        }
        i += 1;
    }
    assert(all.take(i as int) =~= all);
    Ok(Some(out))
}

#[verifier::loop_isolation(false)]
fn parse_demon_bluffs(args: &Json) -> (r: Result<Option<Vec<Character>>, RpcError>)
    ensures
        list_view(r) == read_list(args@.items_at("demon_bluffs"@), |j: JsonView| bluff_in(j)),
{
    let items = match args.array_at("demon_bluffs") {
        Some(v) => v,
        None => return Ok(None),
    };
    let ghost f = |j: JsonView| bluff_in(j);
    let ghost all = items_view(items@);
    let mut out: Vec<Character> = Vec::new();
    let mut i: usize = 0;
    while i < items.len()
        invariant
            i <= items@.len(),
            read_all(all.take(i as int), f) == Ok::<Seq<Character>, RpcErrorView>(out@),
        decreases items@.len() - i,
    {
        proof {
            assert(all.take(i + 1).drop_last() =~= all.take(i as int));
            assert(all.take(i + 1).last() == items@[i as int]@);
            if read_all(all.take(i + 1), f) is Err {
                first_error_stands(all, f, i + 1);
            }
        }
        match parse_bluff(&items[i]) {
            Ok(a) => out.push(a),
            Err(e) => return Err(e),
        }
        i += 1;
    }
    assert(all.take(i as int) =~= all);
    Ok(Some(out))
}

// ---------------------------------------------------------------------------
// start_game options
// ---------------------------------------------------------------------------

/// What start options say.
pub struct StartOptsView {
    pub assignments: Option<Seq<RoleAssignment>>,
    pub drunk_faces: Option<Seq<(SeatId, Character)>>,
    pub red_herring: Option<SeatId>,
    pub demon_bluffs: Option<Seq<Character>>,
    pub registration_mode: RegistrationMode,
    pub st_choice_mode: StChoiceMode,
}

/// An optional list as it reads.
pub open spec fn opt_seq<T>(v: Option<Vec<T>>) -> Option<Seq<T>> {
    match v {
        Some(v) => Some(v@),
        None => None,
    }
}

impl View for StartOpts {
    type V = StartOptsView;

    open spec fn view(&self) -> StartOptsView {
        StartOptsView {
            assignments: opt_seq(self.assignments),
            drunk_faces: opt_seq(self.drunk_faces),
            red_herring: self.red_herring,
            demon_bluffs: opt_seq(self.demon_bluffs),
            registration_mode: self.registration_mode,
            st_choice_mode: self.st_choice_mode,
        }
    }
}

/// The registration mode of this name; no name means random.
pub open spec fn registration_named(name: Option<Seq<char>>) -> Result<
    RegistrationMode,
    RpcErrorView,
> {
    match name {
        None => Ok(RegistrationMode::Random),
        Some(s) => {
            let key = lowered(s);
            if key == "random"@ || key == ""@ {
                Ok(RegistrationMode::Random)
            } else if key == "alwaystrue"@ || key == "always_true"@ || key == "true"@ {
                Ok(RegistrationMode::AlwaysTrue)
            } else if key == "alwaysmisreg"@ || key == "always_misreg"@ || key == "misreg"@ {
                Ok(RegistrationMode::AlwaysMisreg)
            } else {
                Err(invalid("unknown registration_mode: "@ + key))
            }
        },
    }
}

fn parse_registration_mode(args: &Json) -> (r: Result<RegistrationMode, RpcError>)
    ensures
        read(r) == registration_named(args@.text_at("registration_mode"@)),
{
    let s = match args.str_at("registration_mode") {
        None => return Ok(RegistrationMode::Random),
        Some(s) => s,
    };
    let low = to_lower(s);
    let key = low.as_str();
    if str_eq(key, "random") || str_eq(key, "") {
        Ok(RegistrationMode::Random)
    } else if str_eq(key, "alwaystrue") || str_eq(key, "always_true") || str_eq(key, "true") {
        Ok(RegistrationMode::AlwaysTrue)
    } else if str_eq(key, "alwaysmisreg") || str_eq(key, "always_misreg") || str_eq(key, "misreg") {
        Ok(RegistrationMode::AlwaysMisreg)
    } else {
        Err(invalid_named("unknown registration_mode: ", key))
    }
}

/// The optional red herring.
pub open spec fn herring_in(v: Option<JsonView>) -> Result<Option<SeatId>, RpcErrorView> {
    match v {
        None => Ok(None),
        Some(j) => match seat_in(j) {
            Ok(seat) => Ok(Some(seat)),
            Err(e) => Err(e),
        },
    }
}

/// The start options in the arguments, or the first error in the order in which they are read.
pub open spec fn start_opts_in(args: JsonView) -> Result<StartOptsView, RpcErrorView> {
    match read_list(args.items_at("assignments"@), |j: JsonView| assignment_in(j)) {
        Err(e) => Err(e),
        Ok(assignments) => match registration_named(args.text_at("registration_mode"@)) {
            Err(e) => Err(e),
            Ok(registration_mode) => match read_list(
                args.items_at("drunk_faces"@),
                |j: JsonView| face_in(j),
            ) {
                Err(e) => Err(e),
                Ok(drunk_faces) => match herring_in(args.field("red_herring"@)) {
                    Err(e) => Err(e),
                    Ok(red_herring) => match read_list(
                        args.items_at("demon_bluffs"@),
                        |j: JsonView| bluff_in(j),
                    ) {
                        Err(e) => Err(e),
                        Ok(demon_bluffs) => Ok(
                            StartOptsView {
                                assignments,
                                drunk_faces,
                                red_herring,
                                demon_bluffs,
                                registration_mode,
                                st_choice_mode: StChoiceMode::HostFirst,
                            },
                        ),
                    },
                },
            },
        },
    }
}

/// Read the options of `start_game`.
pub fn parse_start_opts(args: &Json) -> (r: Result<StartOpts, RpcError>)
    ensures
        match r {
            Ok(opts) => start_opts_in(args@) == Ok::<StartOptsView, RpcErrorView>(opts@),
            Err(e) => start_opts_in(args@) == Err::<StartOptsView, RpcErrorView>(e@),
        },
{
    let assignments = match parse_assignments(args) {
        Ok(v) => v,
        Err(e) => return Err(e),
    };
    let registration_mode = match parse_registration_mode(args) {
        Ok(m) => m,
        Err(e) => return Err(e),
    };
    let drunk_faces = match parse_drunk_faces(args) {
        Ok(v) => v,
        Err(e) => return Err(e),
    };
    let red_herring = match args.get("red_herring") {
        None => None,
        Some(j) => match seat_id(j) {
            Ok(seat) => Some(seat),
            Err(e) => return Err(e),
        },
    };
    let demon_bluffs = match parse_demon_bluffs(args) {
        Ok(v) => v,
        Err(e) => return Err(e),
    };
    Ok(
        StartOpts {
            assignments,
            drunk_faces,
            red_herring,
            demon_bluffs,
            registration_mode,
            st_choice_mode: StChoiceMode::HostFirst,
        },
    )
}

// ---------------------------------------------------------------------------
// Night, day and host choices
// ---------------------------------------------------------------------------

/// What a night choice says.
pub enum NightPayloadView {
    Ack,
    PickOne { target: SeatId },
    PickTwo { a: SeatId, b: SeatId },
    PickCharacter { name: Seq<char> },
}

impl View for NightActionPayload {
    type V = NightPayloadView;

    open spec fn view(&self) -> NightPayloadView {
        match *self {
            NightActionPayload::Ack => NightPayloadView::Ack,
            NightActionPayload::PickOne { target } => NightPayloadView::PickOne { target },
            NightActionPayload::PickTwo { a, b } => NightPayloadView::PickTwo { a, b },
            NightActionPayload::PickCharacter { name } => NightPayloadView::PickCharacter {
                name: name@,
            },
        }
    }
}

/// A choice of two seats, or the first error of the two.
pub open spec fn two_seats(
    a: Result<SeatId, RpcErrorView>,
    b: Result<SeatId, RpcErrorView>,
) -> Result<NightPayloadView, RpcErrorView> {
    match a {
        Err(e) => Err(e),
        Ok(a) => match b {
            Err(e) => Err(e),
            Ok(b) => Ok(NightPayloadView::PickTwo { a, b }),
        },
    }
}

/// A choice of one seat, or the error.
pub open spec fn one_seat(
    t: Result<SeatId, RpcErrorView>,
) -> Result<NightPayloadView, RpcErrorView> {
    match t {
        Err(e) => Err(e),
        Ok(target) => Ok(NightPayloadView::PickOne { target }),
    }
}

/// A choice that names its kind.
pub open spec fn kinded_payload(p: JsonView, kind: Seq<char>) -> Result<
    NightPayloadView,
    RpcErrorView,
> {
    if kind == "ack"@ || kind == "Ack"@ {
        Ok(NightPayloadView::Ack)
    } else if kind == "pick_one"@ || kind == "PickOne"@ {
        one_seat(seat_or(p.field("target"@), "PickOne needs target"@))
    } else if kind == "pick_two"@ || kind == "PickTwo"@ {
        let a = p.either("a"@, "target_a"@);
        let b = p.either("b"@, "target_b"@);
        if a is None {
            Err(invalid("PickTwo needs a"@))
        } else if b is None {
            Err(invalid("PickTwo needs b"@))
        } else {
            two_seats(seat_in(a->0), seat_in(b->0))
        }
    } else if kind == "pick_character"@ || kind == "PickCharacter"@ {
        match text_of(p.either("name"@, "character"@)) {
            Some(name) => Ok(NightPayloadView::PickCharacter { name }),
            None => Err(invalid("PickCharacter needs name"@)),
        }
    } else {
        Err(invalid("unknown night payload kind: "@ + kind))
    }
}

/// A choice that does not name its kind: an acknowledgement, one target, two targets, a
/// character, or nothing, which acknowledges.
pub open spec fn bare_payload(p: JsonView) -> Result<NightPayloadView, RpcErrorView> {
    let acks = (p.field("ack"@) matches Some(v) && v.truth() == Some(true)) || p.text_at(
        "action"@,
    ) == Some("ack"@);
    if acks {
        Ok(NightPayloadView::Ack)
    } else if p.field("target"@) is Some {
        one_seat(seat_in(p.field("target"@)->0))
    } else if p.items_at("targets"@) matches Some(v) && v.len() == 2 {
        let v = p.items_at("targets"@)->0;
        two_seats(seat_in(v[0]), seat_in(v[1]))
    } else if p.field("a"@) is Some && p.field("b"@) is Some {
        two_seats(seat_in(p.field("a"@)->0), seat_in(p.field("b"@)->0))
    } else {
        match text_of(p.either("character"@, "character_guess"@)) {
            Some(name) => Ok(NightPayloadView::PickCharacter { name }),
            None => Ok(NightPayloadView::Ack),
        }
    }
}

/// The object that holds the choice: `payload`, or the arguments themselves.
pub open spec fn payload_part(args: JsonView) -> JsonView {
    match args.field("payload"@) {
        Some(p) => p,
        None => args,
    }
}

/// The night choice in the arguments.
pub open spec fn night_payload_in(args: JsonView) -> Result<NightPayloadView, RpcErrorView> {
    let p = payload_part(args);
    match text_of(p.either("kind"@, "type"@)) {
        Some(kind) => kinded_payload(p, kind),
        None => bare_payload(p),
    }
}

/// A read choice says what the arguments say.
pub open spec fn payload_view(r: Result<NightActionPayload, RpcError>) -> Result<
    NightPayloadView,
    RpcErrorView,
> {
    match r {
        Ok(p) => Ok(p@),
        Err(e) => Err(e@),
    }
}

fn pick_one(t: &Json) -> (r: Result<NightActionPayload, RpcError>)
    ensures
        payload_view(r) == one_seat(seat_in(t@)),
{
    match seat_id(t) {
        Ok(target) => Ok(NightActionPayload::PickOne { target }),
        Err(e) => Err(e),
    }
}

fn pick_two(a: &Json, b: &Json) -> (r: Result<NightActionPayload, RpcError>)
    ensures
        payload_view(r) == two_seats(seat_in(a@), seat_in(b@)),
{
    match seat_id(a) {
        Ok(a) => match seat_id(b) {
            Ok(b) => Ok(NightActionPayload::PickTwo { a, b }),
            Err(e) => Err(e),
        },
        Err(e) => Err(e),
    }
}

fn parse_kinded_payload(p: &Json, kind: &str) -> (r: Result<NightActionPayload, RpcError>)
    ensures
        payload_view(r) == kinded_payload(p@, kind@),
{
    if str_eq(kind, "ack") || str_eq(kind, "Ack") {
        Ok(NightActionPayload::Ack)
    } else if str_eq(kind, "pick_one") || str_eq(kind, "PickOne") {
        match p.get("target") {
            Some(t) => pick_one(t),
            None => Err(invalid_params("PickOne needs target")),
        }
    } else if str_eq(kind, "pick_two") || str_eq(kind, "PickTwo") {
        let a = match p.get_either("a", "target_a") {
            Some(a) => a,
            None => return Err(invalid_params("PickTwo needs a")),
        };
        let b = match p.get_either("b", "target_b") {
            Some(b) => b,
            None => return Err(invalid_params("PickTwo needs b")),
        };
        pick_two(a, b)
    } else if str_eq(kind, "pick_character") || str_eq(kind, "PickCharacter") {
        match str_of(p.get_either("name", "character")) {
            Some(name) => Ok(NightActionPayload::PickCharacter { name: name.to_owned() }),
            None => Err(invalid_params("PickCharacter needs name")),
        }
    } else {
        Err(invalid_named("unknown night payload kind: ", kind))
    }
}

/// Read the choice of `night_action`.
pub fn parse_night_payload(args: &Json) -> (r: Result<NightActionPayload, RpcError>)
    ensures
        payload_view(r) == night_payload_in(args@),
{
    // Nested `payload` object or flat fields.
    let p = match args.get("payload") {
        Some(p) => p,
        None => args,
    };
    if let Some(kind) = str_of(p.get_either("kind", "type")) {
        return parse_kinded_payload(p, kind);
    }
    let ack = match p.get("ack") {
        Some(v) => match v.as_bool() {
            Some(b) => b,
            None => false,
        },
        None => false,
    };
    let action_ack = match p.str_at("action") {
        Some(s) => str_eq(s, "ack"),
        None => false,
    };
    if ack || action_ack {
        return Ok(NightActionPayload::Ack);
    }
    if let Some(t) = p.get("target") {
        return pick_one(t);
    }
    if let Some(arr) = p.array_at("targets") {
        if arr.len() == 2 {
            assert(items_view(arr@)[0] == arr@[0]@);
            assert(items_view(arr@)[1] == arr@[1]@);
            return pick_two(&arr[0], &arr[1]);
        }
    }
    if let Some(a) = p.get("a") {
        if let Some(b) = p.get("b") {
            return pick_two(a, b);
        }
    }
    if let Some(name) = str_of(p.get_either("character", "character_guess")) {
        return Ok(NightActionPayload::PickCharacter { name: name.to_owned() });
    }
    // Default: ack (info-only wakes)
    Ok(NightActionPayload::Ack)
}

/// The day action in the arguments; without a name it is a shot.
pub open spec fn day_payload_in(args: JsonView) -> Result<DayActionPayload, RpcErrorView> {
    let p = payload_part(args);
    let action = match text_of(p.either("action"@, "kind"@)) {
        Some(s) => s,
        None => "slay"@,
    };
    if action == "slay"@ || action == "Slay"@ || action == "slayer"@ {
        match seat_or(p.field("target"@), "day_action slay needs target"@) {
            Ok(target) => Ok(DayActionPayload::Slay { target }),
            Err(e) => Err(e),
        }
    } else {
        Err(invalid("unknown day action: "@ + action))
    }
}

/// Read the choice of `day_action`.
pub fn parse_day_payload(args: &Json) -> (r: Result<DayActionPayload, RpcError>)
    ensures
        read(r) == day_payload_in(args@),
{
    let p = match args.get("payload") {
        Some(p) => p,
        None => args,
    };
    let action = match str_of(p.get_either("action", "kind")) {
        Some(s) => s,
        None => "slay",
    };
    if str_eq(action, "slay") || str_eq(action, "Slay") || str_eq(action, "slayer") {
        match require_seat(p.get("target"), "day_action slay needs target") {
            Ok(target) => Ok(DayActionPayload::Slay { target }),
            Err(e) => Err(e),
        }
    } else {
        Err(invalid_named("unknown day action: ", action))
    }
}

/// The nominee and the ballot in the arguments.
pub open spec fn ballot_in(args: JsonView) -> Result<(SeatId, bool), RpcErrorView> {
    match seat_or(args.either("nominee"@, "target"@), "vote requires nominee"@) {
        Err(e) => Err(e),
        Ok(nominee) => match args.either("support"@, "yes"@) {
            Some(v) => match v.truth() {
                Some(support) => Ok((nominee, support)),
                None => Err(invalid("vote requires support (bool)"@)),
            },
            None => Err(invalid("vote requires support (bool)"@)),
        },
    }
}

/// Read the ballot of `vote`.
pub fn parse_ballot(args: &Json) -> (r: Result<(SeatId, bool), RpcError>)
    ensures
        read(r) == ballot_in(args@),
{
    let nominee = match require_seat(args.get_either("nominee", "target"), "vote requires nominee") {
        Ok(s) => s,
        Err(e) => return Err(e),
    };
    let support = match args.get_either("support", "yes") {
        Some(v) => v.as_bool(),
        None => None,
    };
    match support {
        Some(b) => Ok((nominee, b)),
        None => Err(invalid_params("vote requires support (bool)")),
    }
}

/// The answer to an attack on the Mayor in the arguments.
pub open spec fn mayor_choice_in(args: JsonView) -> Result<HostDecision, RpcErrorView> {
    match args.text_at("choice"@) {
        None => Err(invalid("mayor_redirect requires choice"@)),
        Some(choice) => if choice == "kill_mayor"@ {
            Ok(HostDecision::MayorRedirect { choice: MayorRedirectChoice::KillMayor })
        } else if choice == "nobody"@ {
            Ok(HostDecision::MayorRedirect { choice: MayorRedirectChoice::Nobody })
        } else if choice == "kill_other"@ {
            match args.field("target"@) {
                None => Err(invalid("kill_other requires target seat"@)),
                Some(t) => if t.text() == Some("nobody"@) {
                    Ok(HostDecision::MayorRedirect { choice: MayorRedirectChoice::Nobody })
                } else {
                    match seat_in(t) {
                        Ok(target) => Ok(
                            HostDecision::MayorRedirect {
                                choice: MayorRedirectChoice::KillOther { target },
                            },
                        ),
                        Err(e) => Err(e),
                    }
                },
            }
        } else {
            Err(invalid("unknown mayor choice: "@ + choice))
        },
    }
}

/// The host decision in the arguments.
pub open spec fn host_decision_in(args: JsonView) -> Result<HostDecision, RpcErrorView> {
    match text_of(args.either("type"@, "decision"@)) {
        None => Err(invalid("host_decide requires type"@)),
        Some(ty) => if ty == "mayor_redirect"@ {
            mayor_choice_in(args)
        } else if ty == "starpass_pick"@ {
            let v = match args.either("target"@, "minion"@) {
                Some(v) => Some(v),
                None => args.field("seat"@),
            };
            match seat_or(v, "starpass_pick requires target/minion seat"@) {
                Ok(minion) => Ok(HostDecision::StarpassPick { minion }),
                Err(e) => Err(e),
            }
        } else {
            Err(invalid("unknown host_decide type: "@ + ty))
        },
    }
}

fn parse_mayor_choice(args: &Json) -> (r: Result<HostDecision, RpcError>)
    ensures
        read(r) == mayor_choice_in(args@),
{
    let choice_s = match args.str_at("choice") {
        Some(s) => s,
        None => return Err(invalid_params("mayor_redirect requires choice")),
    };
    if str_eq(choice_s, "kill_mayor") {
        Ok(HostDecision::MayorRedirect { choice: MayorRedirectChoice::KillMayor })
    } else if str_eq(choice_s, "nobody") {
        Ok(HostDecision::MayorRedirect { choice: MayorRedirectChoice::Nobody })
    } else if str_eq(choice_s, "kill_other") {
        let target = match args.get("target") {
            Some(t) => t,
            None => return Err(invalid_params("kill_other requires target seat")),
        };
        // Allow string "nobody" as alias.
        let nobody = match target.as_str() {
            Some(s) => str_eq(s, "nobody"),
            None => false,
        };
        if nobody {
            Ok(HostDecision::MayorRedirect { choice: MayorRedirectChoice::Nobody })
        } else {
            match seat_id(target) {
                Ok(target) => Ok(
                    HostDecision::MayorRedirect {
                        choice: MayorRedirectChoice::KillOther { target },
                    },
                ),
                Err(e) => Err(e),
            }
        }
    } else {
        Err(invalid_named("unknown mayor choice: ", choice_s))
    }
}

/// Read the decision of `host_decide`.
pub fn parse_host_decision(args: &Json) -> (r: Result<HostDecision, RpcError>)
    ensures
        read(r) == host_decision_in(args@),
{
    let ty = match str_of(args.get_either("type", "decision")) {
        Some(s) => s,
        None => return Err(invalid_params("host_decide requires type")),
    };
    if str_eq(ty, "mayor_redirect") {
        parse_mayor_choice(args)
    } else if str_eq(ty, "starpass_pick") {
        let v = match args.get_either("target", "minion") {
            Some(v) => Some(v),
            None => args.get("seat"),
        };
        match require_seat(v, "starpass_pick requires target/minion seat") {
            Ok(minion) => Ok(HostDecision::StarpassPick { minion }),
            Err(e) => Err(e),
        }
    } else {
        Err(invalid_named("unknown host_decide type: ", ty))
    }
}

/// The names in the arguments of `create_game`.
pub open spec fn name_in(item: JsonView) -> Result<Seq<char>, RpcErrorView> {
    match item.text() {
        Some(s) => Ok(s),
        None => Err(invalid("names entries must be strings"@)),
    }
}

/// The names in the arguments of `create_game`.
pub open spec fn names_in(args: JsonView) -> Result<Seq<Seq<char>>, RpcErrorView> {
    match args.items_at("names"@) {
        None => Err(invalid("create_game requires names: string[]"@)),
        Some(items) => read_all(items, |j: JsonView| name_in(j)),
    }
}

/// Read the names of `create_game`.
#[verifier::loop_isolation(false)]
pub fn parse_names(args: &Json) -> (r: Result<Vec<String>, RpcError>)
    ensures
        match r {
            Ok(v) => names_in(args@) == Ok::<Seq<Seq<char>>, RpcErrorView>(texts(v@)),
            Err(e) => names_in(args@) == Err::<Seq<Seq<char>>, RpcErrorView>(e@),
        },
{
    let items = match args.array_at("names") {
        Some(v) => v,
        None => return Err(invalid_params("create_game requires names: string[]")),
    };
    let ghost f = |j: JsonView| name_in(j);
    let ghost all = items_view(items@);
    let mut out: Vec<String> = Vec::new();
    let mut i: usize = 0;
    assert(texts(out@) =~= seq![]);
    while i < items.len()
        invariant
            i <= items@.len(),
            read_all(all.take(i as int), f) == Ok::<Seq<Seq<char>>, RpcErrorView>(texts(out@)),
        decreases items@.len() - i,
    {
        let ghost before = out@;
        proof {
            assert(all.take(i + 1).drop_last() =~= all.take(i as int));
            assert(all.take(i + 1).last() == items@[i as int]@);
            if read_all(all.take(i + 1), f) is Err {
                first_error_stands(all, f, i + 1);
            }
        }
        match items[i].as_str() {
            Some(s) => {
                out.push(s.to_owned());
                assert(texts(out@) =~= texts(before).push(s@));
            },
            None => return Err(invalid_params("names entries must be strings")),
        }
        i += 1;
    }
    assert(all.take(i as int) =~= all);
    Ok(out)
}

/// The text under `text`, or the error that asks for it.
pub open spec fn text_in(args: JsonView, missing: Seq<char>) -> Result<Seq<char>, RpcErrorView> {
    match args.text_at("text"@) {
        Some(s) => Ok(s),
        None => Err(invalid(missing)),
    }
}

/// Read the text of a speech tool.
pub fn require_text(args: &Json, missing: &str) -> (r: Result<String, RpcError>)
    ensures
        match r {
            Ok(s) => text_in(args@, missing@) == Ok::<Seq<char>, RpcErrorView>(s@),
            Err(e) => text_in(args@, missing@) == Err::<Seq<char>, RpcErrorView>(e@),
        },
{
    match args.str_at("text") {
        Some(s) => Ok(s.to_owned()),
        None => Err(invalid_params(missing)),
    }
}

} // verus!
