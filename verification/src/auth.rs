//! Opaque tokens and actor resolution.

use crate::game::ids::SeatId;
use crate::rng::random_u64;
use crate::text::{chars_of, digit, digit_char, string_of};
use uuid::Uuid;
use vstd::prelude::*;
use vstd::string::*;
use vstd::utf8::{encode_utf8, is_ascii_chars, is_ascii_chars_encode_utf8};

verus! {

/// A lower-case hexadecimal digit.
pub open spec fn is_hex(c: char) -> bool {
    '0' <= c <= '9' || 'a' <= c <= 'f'
}

/// A random UUID in hyphenated form: groups of 8, 4, 4, 4 and 12 digits, with the version and the
/// variant in their places.
pub open spec fn is_uuid_v4(s: Seq<char>) -> bool {
    &&& s.len() == 36
    &&& forall|i: int|
        0 <= i < 36 ==> if i == 8 || i == 13 || i == 18 || i == 23 {
            #[trigger] s[i] == '-'
        } else {
            is_hex(s[i])
        }
    &&& s[14] == '4'
    &&& s[19] == '8' || s[19] == '9' || s[19] == 'a' || s[19] == 'b'
}

/// The shape of every secret handed out: 36 hexadecimal digits and hyphens.
pub open spec fn is_secret(s: Seq<char>) -> bool {
    s.len() == 36 && forall|i: int| 0 <= i < 36 ==> (#[trigger] s[i] == '-' || is_hex(s[i]))
}

/// A secret is ASCII: it has as many bytes as characters.
pub proof fn secrets_are_ascii(s: Seq<char>)
    requires
        is_secret(s),
    ensures
        is_ascii_chars(s),
        encode_utf8(s).len() == 36,
{
    is_ascii_chars_encode_utf8(s);
}

/// Calls `Uuid::new_v4` and prints it in hyphenated form. Claimed: the shape of the text. Which
/// digits it has is left to the machine's entropy.
#[verifier::external_body]
pub(crate) fn random_uuid() -> (s: String)
    ensures
        is_uuid_v4(s@),
{
    Uuid::new_v4().to_string()
}

/// Unguessable secret presented on every tool call.
#[derive(PartialEq, Eq, Hash)]
pub struct Token(String);

impl View for Token {
    type V = Seq<char>;

    closed spec fn view(&self) -> Seq<char> {
        self.0@
    }
}

impl Clone for Token {
    fn clone(&self) -> (t: Token)
        ensures
            t@ == self@,
    {
        Token(self.0.clone())
    }
}

impl Token {
    /// A fresh random secret of 36 bytes.
    pub fn generate() -> (t: Token)
        ensures
            is_uuid_v4(t@),
            encode_utf8(t@).len() == 36,
    {
        let t = Token(random_uuid());
        proof {
            secrets_are_ascii(t@);
        }
        t
    }

    pub fn as_str(&self) -> (s: &str)
        ensures
            s@ == self@,
    {
        self.0.as_str()
    }

    pub fn from_shared(s: &str) -> (t: Token)
        ensures
            t@ == s@,
    {
        Token(s.to_owned())
    }

    fn same(&self, other: &Token) -> (b: bool)
        ensures
            b == (self@ == other@),
    {
        self.0 == other.0
    }
}

#[derive(Debug, Clone, Copy, PartialEq, Eq, Structural)]
pub enum Actor {
    Host,
    Player { seat: SeatId },
}

/// Per-game token → actor map (host token + one per seat).
pub struct TokenBook {
    by_token: Vec<(Token, Actor)>,
    host: Option<Token>,
    players: Vec<(SeatId, Token)>,
}

/// What a token book holds; of two entries under one key the later one counts.
pub struct TokenBookView {
    pub by_token: Seq<(Seq<char>, Actor)>,
    pub host: Option<Seq<char>>,
    pub players: Seq<(SeatId, Seq<char>)>,
}

/// The value of the last entry under `key`.
pub open spec fn last_under<K, T>(entries: Seq<(K, T)>, key: K) -> Option<T>
    decreases entries.len(),
{
    if entries.len() == 0 {
        None
    } else if entries.last().0 == key {
        Some(entries.last().1)
    } else {
        last_under(entries.drop_last(), key)
    }
}

impl TokenBookView {
    pub open spec fn empty() -> TokenBookView {
        TokenBookView { by_token: seq![], host: None, players: seq![] }
    }

    /// Who presents this token.
    pub open spec fn actor(self, token: Seq<char>) -> Option<Actor> {
        last_under(self.by_token, token)
    }

    /// The book after `token` was issued to the host.
    pub open spec fn with_host(self, token: Seq<char>) -> TokenBookView {
        TokenBookView {
            by_token: self.by_token.push((token, Actor::Host)),
            host: Some(token),
            ..self
        }
    }

    /// The book after `token` was issued to a seat.
    pub open spec fn with_player(self, seat: SeatId, token: Seq<char>) -> TokenBookView {
        TokenBookView {
            by_token: self.by_token.push((token, Actor::Player { seat })),
            players: self.players.push((seat, token)),
            ..self
        }
    }
}

impl View for TokenBook {
    type V = TokenBookView;

    closed spec fn view(&self) -> TokenBookView {
        TokenBookView {
            by_token: self.by_token@.map_values(|e: (Token, Actor)| (e.0@, e.1)),
            host: match self.host {
                Some(t) => Some(t@),
                None => None,
            },
            players: self.players@.map_values(|e: (SeatId, Token)| (e.0, e.1@)),
        }
    }
}

impl Default for TokenBook {
    fn default() -> (b: TokenBook)
        ensures
            b@ == TokenBookView::empty(),
    {
        let b = TokenBook { by_token: Vec::new(), host: None, players: Vec::new() };
        assert(b@.by_token =~= seq![]);
        assert(b@.players =~= seq![]);
        b
    }
}

/// The hexadecimal digit of `d` (for `d < 16`).
pub open spec fn hex(d: nat) -> char {
    if d < 10 {
        digit(d)
    } else if d == 10 {
        'a'
    } else if d == 11 {
        'b'
    } else if d == 12 {
        'c'
    } else if d == 13 {
        'd'
    } else if d == 14 {
        'e'
    } else {
        'f'
    }
}

/// The last `width` hexadecimal digits of a number, with leading zeros.
pub open spec fn hex_digits(n: nat, width: nat) -> Seq<char>
    decreases width,
{
    if width == 0 { seq![] } else { hex_digits(n / 16, (width - 1) as nat).push(hex(n % 16)) }
}

spec fn sixteen_to(n: nat) -> nat
    decreases n,
{
    if n == 0 { 1 } else { 16 * sixteen_to((n - 1) as nat) }
}

proof fn hex_digits_are_hex(n: nat, width: nat)
    ensures
        hex_digits(n, width).len() == width,
        forall|i: int| 0 <= i < width ==> is_hex(#[trigger] hex_digits(n, width)[i]),
    decreases width,
{
    if width > 0 {
        let front = hex_digits(n / 16, (width - 1) as nat);
        hex_digits_are_hex(n / 16, (width - 1) as nat);
        assert forall|i: int| 0 <= i < width implies is_hex(
            #[trigger] hex_digits(n, width)[i],
        ) by {
            if i < width - 1 {
                assert(hex_digits(n, width)[i] == front[i]);
            }
        }
    }
}

proof fn hex_digits_differ(a: nat, b: nat, width: nat)
    requires
        a < sixteen_to(width),
        b < sixteen_to(width),
        hex_digits(a, width) == hex_digits(b, width),
    ensures
        a == b,
    decreases width,
{
    if width > 0 {
        let x = hex_digits(a / 16, (width - 1) as nat);
        let y = hex_digits(b / 16, (width - 1) as nat);
        assert(x.push(hex(a % 16)).drop_last() =~= x);
        assert(y.push(hex(b % 16)).drop_last() =~= y);
        assert(x.push(hex(a % 16)).last() == y.push(hex(b % 16)).last());
        hex_digits_differ(a / 16, b / 16, (width - 1) as nat);
    }
}

/// How many characters of a drawn secret are kept where its other digits are drawn again.
pub const KEPT: usize = 20;

/// How many digits are drawn again.
pub const REDRAWN: u64 = 16;

/// The number `k` steps after `start`, around the end.
pub open spec fn stepped_on(start: u64, k: int) -> nat {
    if start + k <= u64::MAX { (start + k) as nat } else { (start + k - u64::MAX - 1) as nat }
}

/// The secret `k` steps after one that was drawn: its head, then the digits of the number.
pub open spec fn secret_after(drawn: Seq<char>, start: u64, k: int) -> Seq<char> {
    drawn.take(KEPT as int) + hex_digits(stepped_on(start, k), REDRAWN as nat)
}

proof fn steps_give_secrets(drawn: Seq<char>, start: u64, k: int)
    requires
        is_secret(drawn),
    ensures
        is_secret(secret_after(drawn, start, k)),
{
    let tail = hex_digits(stepped_on(start, k), REDRAWN as nat);
    hex_digits_are_hex(stepped_on(start, k), REDRAWN as nat);
    let s = secret_after(drawn, start, k);
    assert forall|i: int| 0 <= i < 36 implies (#[trigger] s[i] == '-' || is_hex(s[i])) by {
        if i < KEPT {
            assert(s[i] == drawn[i]);
        } else {
            assert(s[i] == tail[i - KEPT]);
        }
    }
}

proof fn steps_differ(drawn: Seq<char>, start: u64, a: int, b: int)
    requires
        0 <= a <= u64::MAX,
        0 <= b <= u64::MAX,
        drawn.len() == 36,
        secret_after(drawn, start, a) == secret_after(drawn, start, b),
    ensures
        a == b,
{
    let x = hex_digits(stepped_on(start, a), REDRAWN as nat);
    let y = hex_digits(stepped_on(start, b), REDRAWN as nat);
    hex_digits_are_hex(stepped_on(start, a), REDRAWN as nat);
    hex_digits_are_hex(stepped_on(start, b), REDRAWN as nat);
    assert(secret_after(drawn, start, a).skip(KEPT as int) =~= x);
    assert(secret_after(drawn, start, b).skip(KEPT as int) =~= y);
    reveal_with_fuel(sixteen_to, 17);
    hex_digits_differ(stepped_on(start, a), stepped_on(start, b), REDRAWN as nat);
}

/// An entry that is found stands somewhere.
proof fn found_entries_are_there<K, T>(entries: Seq<(K, T)>, key: K)
    ensures
        last_under(entries, key) is Some <==> exists|i: int|
            0 <= i < entries.len() && (#[trigger] entries[i]).0 == key,
        last_under(entries, key) matches Some(v) ==> entries.contains((key, v)),
    decreases entries.len(),
{
    if entries.len() > 0 {
        let front = entries.drop_last();
        found_entries_are_there(front, key);
        assert(entries[entries.len() - 1] == entries.last());
        if last_under(front, key) is Some {
            let i = choose|i: int| 0 <= i < front.len() && (#[trigger] front[i]).0 == key;
            assert(entries[i].0 == key);
            let v = last_under(front, key)->0;
            assert(entries[front.index_of((key, v))] == (key, v));
        }
        assert forall|i: int| 0 <= i < entries.len() && (#[trigger] entries[i]).0
            == key implies last_under(entries, key) is Some by {
            if i < front.len() {
                assert(front[i].0 == key);
            }
        }
    }
}

/// There are no more different secrets in a list than entries.
proof fn steps_are_entries<T>(entries: Seq<(Seq<char>, T)>, drawn: Seq<char>, start: u64, m: nat)
    requires
        m <= u64::MAX + 1,
        drawn.len() == 36,
        forall|j: int|
            0 <= j < m ==> last_under(entries, #[trigger] secret_after(drawn, start, j)) is Some,
    ensures
        m <= entries.len(),
{
    let names = Seq::new(m, |j: int| secret_after(drawn, start, j));
    let keys = entries.map_values(|e: (Seq<char>, T)| e.0);
    assert(names.no_duplicates()) by {
        assert forall|a: int, b: int| 0 <= a < m && 0 <= b < m && a != b implies names[a]
            != names[b] by {
            if names[a] == names[b] {
                steps_differ(drawn, start, a, b);
            }
        }
    }
    names.unique_seq_to_set();
    keys.lemma_cardinality_of_set();
    assert forall|name: Seq<char>| names.to_set().contains(name) implies keys.to_set().contains(
        name,
    ) by {
        let j = names.index_of(name);
        assert(names[j] == secret_after(drawn, start, j));
        found_entries_are_there(entries, name);
        let i = choose|i: int| 0 <= i < entries.len() && (#[trigger] entries[i]).0 == name;
        assert(keys[i] == name);
    }
    vstd::set_lib::lemma_len_subset(names.to_set(), keys.to_set());
}

fn hex_char(d: u64) -> (c: char)
    requires
        d < 16,
    ensures
        c == hex(d as nat),
{
    match d {
        10 => 'a',
        11 => 'b',
        12 => 'c',
        13 => 'd',
        14 => 'e',
        15 => 'f',
        _ => digit_char(d),
    }
}

fn push_hex(s: &mut String, n: u64, width: u64)
    ensures
        final(s)@ == old(s)@ + hex_digits(n as nat, width as nat),
    decreases width,
{
    if width > 0 {
        push_hex(s, n / 16, width - 1);
        s.push(hex_char(n % 16));
        assert(s@ =~= old(s)@ + hex_digits(n as nat, width as nat));
    } else {
        assert(s@ =~= old(s)@ + hex_digits(n as nat, 0));
    }
}

impl TokenBook {
    /// The drawn secret, if the book does not know it. Should it have been drawn before, its last
    /// digits give way to the number `start`, and from there the first unused secret is taken: with
    /// a random `start` that one is a random choice too.
    pub fn settle_secret(&self, drawn: Token, start: u64) -> (t: Token)
        requires
            is_secret(drawn@),
        ensures
            self@.actor(t@) is None,
            is_secret(t@),
            self@.actor(drawn@) is None ==> t@ == drawn@,
            self@.actor(drawn@) is Some ==> exists|k: int|
                0 <= k && t@ == #[trigger] secret_after(drawn@, start, k) && forall|j: int|
                    0 <= j < k ==> self@.actor(#[trigger] secret_after(drawn@, start, j)) is Some,
    {
        if self.resolve(&drawn).is_none() {
            return drawn;
        }
        let head = string_of(&chars_of(drawn.as_str()), 0, KEPT);
        assert(self@.by_token.len() == self.by_token.len());
        let mut k: usize = 0;
        loop
            invariant
                self@.actor(drawn@) is Some,
                is_secret(drawn@),
                head@ == drawn@.take(KEPT as int),
                k <= self@.by_token.len(),
                self@.by_token.len() <= usize::MAX,
                forall|j: int|
                    0 <= j < k ==> self@.actor(#[trigger] secret_after(drawn@, start, j)) is Some,
            decreases self@.by_token.len() - k,
        {
            let mut secret = head.clone();
            push_hex(&mut secret, start.wrapping_add(k as u64), REDRAWN);
            let t = Token(secret);
            proof {
                assert(t@ == secret_after(drawn@, start, k as int));
                steps_give_secrets(drawn@, start, k as int);
            }
            if self.resolve(&t).is_none() {
                return t;
            }
            proof {
                steps_are_entries(self@.by_token, drawn@, start, (k + 1) as nat);
            }
            k += 1;
        }
    }

    /// A random token that the book does not know.
    fn draw_unused(&self) -> (t: Token)
        ensures
            self@.actor(t@) is None,
            is_secret(t@),
    {
        let drawn = Token::generate();
        self.settle_secret(drawn, random_u64())
    }

    pub fn issue_host(&mut self) -> (t: Token)
        ensures
            old(self)@.actor(t@) is None,
            final(self)@ == old(self)@.with_host(t@),
            is_secret(t@),
    {
        let t = self.draw_unused();
        self.by_token.push((t.clone(), Actor::Host));
        self.host = Some(t.clone());
        assert(self@.by_token =~= old(self)@.with_host(t@).by_token);
        t
    }

    pub fn issue_player(&mut self, seat: SeatId) -> (t: Token)
        ensures
            old(self)@.actor(t@) is None,
            final(self)@ == old(self)@.with_player(seat, t@),
            is_secret(t@),
    {
        let t = self.draw_unused();
        self.by_token.push((t.clone(), Actor::Player { seat }));
        self.players.push((seat, t.clone()));
        assert(self@.by_token =~= old(self)@.with_player(seat, t@).by_token);
        assert(self@.players =~= old(self)@.with_player(seat, t@).players);
        t
    }

    pub fn resolve(&self, token: &Token) -> (r: Option<Actor>)
        ensures
            r == self@.actor(token@),
    {
        let mut i: usize = self.by_token.len();
        assert(self@.by_token.take(i as int) =~= self@.by_token);
        while i > 0
            invariant
                i <= self.by_token.len(),
                last_under(self@.by_token, token@) == last_under(
                    self@.by_token.take(i as int),
                    token@,
                ),
            decreases i,
        {
            i -= 1;
            let ghost shown = self@.by_token.take(i + 1);
            assert(shown.drop_last() =~= self@.by_token.take(i as int));
            if self.by_token[i].0.same(token) {
                return Some(self.by_token[i].1);
            }
        }
        None
    }

    pub fn host_token(&self) -> (r: Option<&Token>)
        ensures
            match r {
                Some(t) => self@.host == Some(t@),
                None => self@.host is None,
            },
    {
        self.host.as_ref()
    }

    pub fn player_token(&self, seat: SeatId) -> (r: Option<&Token>)
        ensures
            match r {
                Some(t) => last_under(self@.players, seat) == Some(t@),
                None => last_under(self@.players, seat) is None,
            },
    {
        let mut i: usize = self.players.len();
        assert(self@.players.take(i as int) =~= self@.players);
        while i > 0
            invariant
                i <= self.players.len(),
                last_under(self@.players, seat) == last_under(
                    self@.players.take(i as int),
                    seat,
                ),
            decreases i,
        {
            i -= 1;
            let ghost shown = self@.players.take(i + 1);
            assert(shown.drop_last() =~= self@.players.take(i as int));
            if self.players[i].0 == seat {
                return Some(&self.players[i].1);
            }
        }
        None
    }
}

/// A token just issued resolves to the actor it was issued to, and every other token resolves
/// as before.
pub proof fn issued_token_resolves(
    book: TokenBookView,
    token: Seq<char>,
    seat: SeatId,
    other: Seq<char>,
)
    ensures
        book.with_host(token).actor(token) == Some(Actor::Host),
        book.with_player(seat, token).actor(token) == Some(Actor::Player { seat }),
        last_under(book.with_player(seat, token).players, seat) == Some(token),
        other != token ==> book.with_host(token).actor(other) == book.actor(other),
        other != token ==> book.with_player(seat, token).actor(other) == book.actor(other),
{
    assert(book.with_host(token).by_token.drop_last() =~= book.by_token);
    assert(book.with_player(seat, token).by_token.drop_last() =~= book.by_token);
}

/// The book after tokens were issued one by one.
pub open spec fn book_of(grants: Seq<(Seq<char>, Actor)>) -> TokenBookView
    decreases grants.len(),
{
    if grants.len() == 0 {
        TokenBookView::empty()
    } else {
        let before = book_of(grants.drop_last());
        match grants.last().1 {
            Actor::Host => before.with_host(grants.last().0),
            Actor::Player { seat } => before.with_player(seat, grants.last().0),
        }
    }
}

/// Each token was unknown when it was issued.
pub open spec fn issued_fresh(grants: Seq<(Seq<char>, Actor)>) -> bool {
    forall|i: int|
        0 <= i < grants.len() ==> book_of(grants.take(i)).actor((#[trigger] grants[i]).0) is None
}

proof fn books_list_their_grants(grants: Seq<(Seq<char>, Actor)>)
    ensures
        book_of(grants).by_token == grants,
    decreases grants.len(),
{
    if grants.len() > 0 {
        books_list_their_grants(grants.drop_last());
        assert(grants.drop_last().push(grants.last()) =~= grants);
    } else {
        assert(book_of(grants).by_token =~= grants);
    }
}

/// A token resolves to exactly whoever it was issued to: to the host if it was issued to the host,
/// to a seat if it was issued to that seat, and to nobody if it was not issued.
pub proof fn tokens_resolve_to_their_holder(
    grants: Seq<(Seq<char>, Actor)>,
    token: Seq<char>,
    actor: Actor,
)
    requires
        issued_fresh(grants),
    ensures
        book_of(grants).actor(token) == Some(actor) <==> grants.contains((token, actor)),
        book_of(grants).actor(token) is None <==> forall|i: int|
            0 <= i < grants.len() ==> (#[trigger] grants[i]).0 != token,
    decreases grants.len(),
{
    books_list_their_grants(grants);
    found_entries_are_there(grants, token);
    if grants.contains((token, actor)) {
        let i = grants.index_of((token, actor));
        let found = last_under(grants, token)->0;
        let k = grants.index_of((token, found));
        assert(grants[i].0 == token);
        assert(grants[k].0 == token);
        if i < k {
            let before = grants.take(k);
            books_list_their_grants(before);
            found_entries_are_there(before, token);
            assert(before[i].0 == token);
        } else if k < i {
            let before = grants.take(i);
            books_list_their_grants(before);
            found_entries_are_there(before, token);
            assert(before[k].0 == token);
        }
    }
}

} // verus!
