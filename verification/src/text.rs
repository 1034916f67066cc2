//! Exact string building blocks: decimal numbers, joining, trimming, splitting.

use vstd::prelude::*;
use vstd::string::*;

verus! {

/// `String::push` appends one character.
pub assume_specification[ String::push ](s: &mut String, c: char)
    ensures
        final(s)@ == old(s)@.push(c),
;

/// The digit character of `d` (for `d < 10`).
pub open spec fn digit(d: nat) -> char {
    if d == 0 { '0' } else if d == 1 { '1' } else if d == 2 { '2' } else if d == 3 { '3' }
    else if d == 4 { '4' } else if d == 5 { '5' } else if d == 6 { '6' } else if d == 7 { '7' }
    else if d == 8 { '8' } else { '9' }
}

/// Decimal notation of `n`, no leading zeros.
pub open spec fn dec(n: nat) -> Seq<char>
    decreases n,
{
    if n < 10 { seq![digit(n)] } else { dec(n / 10).push(digit(n % 10)) }
}

pub(crate) fn digit_char(d: u64) -> (c: char)
    requires
        d < 10,
    ensures
        c == digit(d as nat),
{
    match d {
        0 => '0', 1 => '1', 2 => '2', 3 => '3', 4 => '4',
        5 => '5', 6 => '6', 7 => '7', 8 => '8', _ => '9',
    }
}

/// Append the decimal notation of `n`.
pub fn push_dec(s: &mut String, n: u64)
    ensures
        final(s)@ == old(s)@ + dec(n as nat),
    decreases n,
{
    if n >= 10 {
        push_dec(s, n / 10);
    }
    s.push(digit_char(n % 10));
    proof {
        if n >= 10 {
            assert(s@ =~= old(s)@ + dec(n as nat));
        } else {
            assert(s@ =~= old(s)@ + dec(n as nat));
        }
    }
}

/// Decimal notation of `n`.
pub fn dec_string(n: u64) -> (s: String)
    ensures
        s@ == dec(n as nat),
{
    let mut s = String::new();
    push_dec(&mut s, n);
    assert(s@ =~= dec(n as nat));
    s
}

/// `prefix` followed by the decimal notation of `n`.
pub fn numbered(prefix: &str, n: u64) -> (s: String)
    ensures
        s@ == prefix@ + dec(n as nat),
{
    let mut s = prefix.to_owned();
    push_dec(&mut s, n);
    s
}

/// Equality of two string slices.
pub fn str_eq(a: &str, b: &str) -> (r: bool)
    ensures
        r == (a@ == b@),
{
    a.to_owned() == b.to_owned()
}

/// The characters of a slice.
pub fn chars_of(s: &str) -> (v: Vec<char>)
    ensures
        v@ == s@,
{
    let mut v: Vec<char> = Vec::new();
    for c in it: s.chars()
        invariant
            v@ == s@.take(it.index()),
            it.seq() == s@,
    {
        v.push(c);
        assert(v@ =~= s@.take(it.index() + 1));
    }
    assert(v@ =~= s@);
    v
}

/// What a list of strings says.
pub open spec fn texts(v: Seq<String>) -> Seq<Seq<char>> {
    v.map_values(|s: String| s@)
}

/// The parts in order with `sep` between neighbours.
pub open spec fn joined(parts: Seq<Seq<char>>, sep: Seq<char>) -> Seq<char>
    decreases parts.len(),
{
    if parts.len() == 0 {
        seq![]
    } else if parts.len() == 1 {
        parts[0]
    } else {
        joined(parts.drop_last(), sep) + sep + parts.last()
    }
}

/// Join strings with a separator.
#[verifier::loop_isolation(false)]
pub fn join(parts: &Vec<String>, sep: &str) -> (s: String)
    ensures
        s@ == joined(texts(parts@), sep@),
{
    if parts.len() == 0 {
        return String::new();
    }
    let mut s = parts[0].clone();
    let mut i: usize = 1;
    assert(texts(parts@).take(1) =~= seq![parts@[0]@]);
    while i < parts.len()
        invariant
            1 <= i <= parts.len(),
            s@ == joined(texts(parts@).take(i as int), sep@),
        decreases parts.len() - i,
    {
        s.append(sep);
        s.append(parts[i].as_str());
        i += 1;
        assert(texts(parts@).take(i as int).drop_last() =~= texts(parts@).take(i - 1));
    }
    assert(texts(parts@).take(i as int) =~= texts(parts@));
    s
}

/// Unicode white space.
pub open spec fn is_white(c: char) -> bool {
    let x = c as u32;
    (0x09 <= x <= 0x0d) || x == 0x20 || x == 0x85 || x == 0xa0 || x == 0x1680 || (0x2000 <= x
        <= 0x200a) || x == 0x2028 || x == 0x2029 || x == 0x202f || x == 0x205f || x == 0x3000
}

/// Unicode white space.
pub fn is_whitespace(c: char) -> (b: bool)
    ensures
        b == is_white(c),
{
    let x: u32 = c as u32;
    (0x09 <= x && x <= 0x0d) || x == 0x20 || x == 0x85 || x == 0xa0 || x == 0x1680 || (0x2000 <= x
        && x <= 0x200a) || x == 0x2028 || x == 0x2029 || x == 0x202f || x == 0x205f || x == 0x3000
}

/// Lower case for `A` to `Z`; anything else stays.
pub open spec fn lower(c: char) -> char {
    if 'A' <= c <= 'Z' { ((c as u8) + 32) as u8 as char } else { c }
}

/// Lower case for `A` to `Z`; anything else stays.
pub fn lower_char(c: char) -> (r: char)
    ensures
        r == lower(c),
{
    let x: u32 = c as u32;
    if 65 <= x && x <= 90 {
        (x as u8 + 32) as char
    } else {
        c
    }
}

/// The characters from the first one on that is not white.
pub open spec fn trimmed_start(s: Seq<char>) -> Seq<char>
    decreases s.len(),
{
    if s.len() > 0 && is_white(s[0]) { trimmed_start(s.drop_first()) } else { s }
}

/// The characters up to the last one that is not white.
pub open spec fn trimmed_end(s: Seq<char>) -> Seq<char>
    decreases s.len(),
{
    if s.len() > 0 && is_white(s.last()) { trimmed_end(s.drop_last()) } else { s }
}

/// The text without white space around it.
pub open spec fn trimmed(s: Seq<char>) -> Seq<char> {
    trimmed_end(trimmed_start(s))
}

/// The characters `from..to` as a string.
#[verifier::loop_isolation(false)]
pub fn string_of(chars: &Vec<char>, from: usize, to: usize) -> (s: String)
    requires
        from <= to <= chars@.len(),
    ensures
        s@ == chars@.subrange(from as int, to as int),
{
    let mut s = String::new();
    let mut i: usize = from;
    assert(s@ =~= chars@.subrange(from as int, from as int));
    while i < to
        invariant
            from <= i <= to,
            s@ == chars@.subrange(from as int, i as int),
        decreases to - i,
    {
        s.push(chars[i]);
        i += 1;
        assert(s@ =~= chars@.subrange(from as int, i as int));
    }
    s
}

/// Where the text without surrounding white space begins and ends.
#[verifier::loop_isolation(false)]
pub fn trim_bounds(chars: &Vec<char>) -> (r: (usize, usize))
    ensures
        r.0 <= r.1 <= chars@.len(),
        chars@.subrange(r.0 as int, r.1 as int) == trimmed(chars@),
{
    let n = chars.len();
    let mut a: usize = 0;
    assert(chars@.skip(0) =~= chars@);
    while a < n && is_whitespace(chars[a])
        invariant
            a <= n,
            trimmed_start(chars@.skip(a as int)) == trimmed_start(chars@),
        decreases n - a,
    {
        assert(chars@.skip(a as int).drop_first() =~= chars@.skip(a + 1));
        a += 1;
    }
    let mut b: usize = n;
    assert(chars@.subrange(a as int, n as int) =~= chars@.skip(a as int));
    while b > a && is_whitespace(chars[b - 1])
        invariant
            a <= b <= n,
            trimmed_end(chars@.subrange(a as int, b as int)) == trimmed(chars@),
        decreases b - a,
    {
        assert(chars@.subrange(a as int, b as int).drop_last() =~= chars@.subrange(
            a as int,
            b - 1,
        ));
        b -= 1;
    }
    (a, b)
}

/// The text without white space around it.
pub fn trim(s: &str) -> (r: String)
    ensures
        r@ == trimmed(s@),
{
    let chars = chars_of(s);
    let (a, b) = trim_bounds(&chars);
    string_of(&chars, a, b)
}

/// The text with `A` to `Z` in lower case.
pub open spec fn lowered(s: Seq<char>) -> Seq<char> {
    s.map_values(|c: char| lower(c))
}

/// The text with `A` to `Z` in lower case.
#[verifier::loop_isolation(false)]
pub fn to_lower(s: &str) -> (r: String)
    ensures
        r@ == lowered(s@),
{
    let chars = chars_of(s);
    let mut r = String::new();
    let mut i: usize = 0;
    while i < chars.len()
        invariant
            i <= chars.len(),
            r@ =~= lowered(s@.take(i as int)),
        decreases chars.len() - i,
    {
        r.push(lower_char(chars[i]));
        i += 1;
    }
    assert(s@.take(i as int) =~= s@);
    r
}

/// Every `from` turned into `to`.
pub open spec fn swapped(s: Seq<char>, from: char, to: char) -> Seq<char> {
    s.map_values(|c: char| if c == from { to } else { c })
}

/// Every `from` turned into `to`.
#[verifier::loop_isolation(false)]
pub fn swap_char(s: &str, from: char, to: char) -> (r: String)
    ensures
        r@ == swapped(s@, from, to),
{
    let chars = chars_of(s);
    let mut r = String::new();
    let mut i: usize = 0;
    while i < chars.len()
        invariant
            i <= chars.len(),
            r@ =~= swapped(s@.take(i as int), from, to),
        decreases chars.len() - i,
    {
        r.push(if chars[i] == from { to } else { chars[i] });
        i += 1;
    }
    assert(s@.take(i as int) =~= s@);
    r
}

/// The text without the character `x`.
pub open spec fn without(s: Seq<char>, x: char) -> Seq<char> {
    s.filter(other_than(x))
}

/// Any character but `x`.
pub open spec fn other_than(x: char) -> spec_fn(char) -> bool {
    |c: char| c != x
}

/// The text without the character `x`.
#[verifier::loop_isolation(false)]
pub fn drop_char(s: &str, x: char) -> (r: String)
    ensures
        r@ == without(s@, x),
{
    let chars = chars_of(s);
    let ghost keep = other_than(x);
    let mut r = String::new();
    let mut i: usize = 0;
    assert(r@ =~= s@.take(0).filter(keep)) by {
        reveal(Seq::filter);
    }
    while i < chars.len()
        invariant
            i <= chars.len(),
            r@ == s@.take(i as int).filter(keep),
        decreases chars.len() - i,
    {
        proof {
            assert(s@.take(i + 1).drop_last() =~= s@.take(i as int));
            reveal(Seq::filter);
        }
        if chars[i] != x {
            r.push(chars[i]);
        }
        i += 1;
    }
    assert(s@.take(i as int) =~= s@);
    r
}

/// The first `n` characters, or all of them if there are fewer.
pub open spec fn first_chars(s: Seq<char>, n: int) -> Seq<char> {
    if s.len() <= n { s } else { s.take(n) }
}

/// `s` begins with `p` at position `at`.
pub open spec fn matches_at(s: Seq<char>, p: Seq<char>, at: int) -> bool {
    0 <= at && at + p.len() <= s.len() && s.subrange(at, at + p.len()) == p
}

/// `p` occurs in `s`.
pub open spec fn has_text(s: Seq<char>, p: Seq<char>) -> bool {
    exists|at: int| matches_at(s, p, at)
}

/// Whether `s` begins with `p` at position `at`.
#[verifier::loop_isolation(false)]
pub fn matches_from(s: &Vec<char>, p: &Vec<char>, at: usize) -> (b: bool)
    requires
        at <= s@.len(),
    ensures
        b == matches_at(s@, p@, at as int),
{
    if s.len() - at < p.len() {
        return false;
    }
    let mut i: usize = 0;
    while i < p.len()
        invariant
            i <= p.len(),
            forall|k: int| 0 <= k < i ==> s@[at + k] == p@[k],
        decreases p.len() - i,
    {
        if s[at + i] != p[i] {
            proof {
                let part = s@.subrange(at as int, at + p@.len());
                assert(part[i as int] != p@[i as int]);
            }
            return false;
        }
        i += 1;
    }
    assert(s@.subrange(at as int, at + p@.len()) =~= p@);
    true
}

/// Whether `p` occurs in `s`.
#[verifier::loop_isolation(false)]
pub fn contains_text(s: &str, p: &str) -> (b: bool)
    ensures
        b == has_text(s@, p@),
{
    let sc = chars_of(s);
    let pc = chars_of(p);
    let mut at: usize = 0;
    while at < sc.len()
        invariant
            at <= sc.len(),
            forall|k: int| k < at ==> !matches_at(s@, p@, k),
        decreases sc.len() - at,
    {
        if matches_from(&sc, &pc, at) {
            return true;
        }
        at += 1;
    }
    matches_from(&sc, &pc, at)
}

/// What follows `p` in `s`, if `s` begins with it.
pub open spec fn after_prefix(s: Seq<char>, p: Seq<char>) -> Option<Seq<char>> {
    if matches_at(s, p, 0) { Some(s.skip(p.len() as int)) } else { None }
}

/// What follows `p` in `s`, if `s` begins with it.
pub fn strip(s: &str, p: &str) -> (r: Option<String>)
    ensures
        match r {
            Some(rest) => after_prefix(s@, p@) == Some(rest@),
            None => after_prefix(s@, p@) is None,
        },
{
    let sc = chars_of(s);
    let pc = chars_of(p);
    if matches_from(&sc, &pc, 0) {
        assert(s@.subrange(p@.len() as int, s@.len() as int) =~= s@.skip(p@.len() as int));
        Some(string_of(&sc, pc.len(), sc.len()))
    } else {
        None
    }
}

/// The parts between the separators: one more than there are separators.
pub open spec fn split(s: Seq<char>, sep: char) -> Seq<Seq<char>>
    decreases s.len(),
{
    if s.len() == 0 {
        seq![seq![]]
    } else {
        let front = split(s.drop_last(), sep);
        if s.last() == sep {
            front.push(seq![])
        } else {
            front.update(front.len() - 1, front.last().push(s.last()))
        }
    }
}

/// There is always a last part.
pub proof fn split_is_not_empty(s: Seq<char>, sep: char)
    ensures
        split(s, sep).len() >= 1,
    decreases s.len(),
{
    if s.len() > 0 {
        split_is_not_empty(s.drop_last(), sep);
    }
}

/// The parts between the separators.
#[verifier::loop_isolation(false)]
pub fn split_on(s: &str, sep: char) -> (v: Vec<String>)
    ensures
        texts(v@) == split(s@, sep),
        v@.len() >= 1,
{
    let chars = chars_of(s);
    let mut v: Vec<String> = Vec::new();
    let mut open = String::new();
    let mut i: usize = 0;
    assert(texts(v@).push(open@) =~= split(s@.take(0), sep));
    while i < chars.len()
        invariant
            i <= chars.len(),
            texts(v@).push(open@) == split(s@.take(i as int), sep),
        decreases chars.len() - i,
    {
        let ghost before = v@;
        let ghost was = open@;
        assert(s@.take(i + 1).drop_last() =~= s@.take(i as int));
        if chars[i] == sep {
            v.push(open);
            open = String::new();
            assert(texts(v@).push(open@) =~= texts(before).push(was).push(seq![]));
        } else {
            open.push(chars[i]);
            assert(texts(v@).push(open@) =~= texts(before).push(was).update(
                before.len() as int,
                was.push(chars@[i as int]),
            ));
        }
        i += 1;
    }
    assert(s@.take(i as int) =~= s@);
    let ghost before = v@;
    v.push(open);
    assert(texts(v@) =~= texts(before).push(open@));
    v
}

/// The words between white space.
pub open spec fn words(s: Seq<char>) -> Seq<Seq<char>>
    decreases s.len(),
{
    if s.len() == 0 {
        seq![]
    } else {
        let front = words(s.drop_last());
        if is_white(s.last()) {
            front
        } else if s.len() >= 2 && !is_white(s[s.len() - 2]) && front.len() > 0 {
            front.update(front.len() - 1, front.last().push(s.last()))
        } else {
            front.push(seq![s.last()])
        }
    }
}

/// The words between white space.
#[verifier::loop_isolation(false)]
pub fn split_words(s: &str) -> (v: Vec<String>)
    ensures
        texts(v@) == words(s@),
{
    let chars = chars_of(s);
    let mut v: Vec<String> = Vec::new();
    let mut i: usize = 0;
    assert(texts(v@) =~= words(s@.take(0)));
    while i < chars.len()
        invariant
            i <= chars.len(),
            texts(v@) == words(s@.take(i as int)),
        decreases chars.len() - i,
    {
        let c = chars[i];
        let ghost before = v@;
        let ghost shown = s@.take(i + 1);
        assert(shown.drop_last() =~= s@.take(i as int));
        if !is_whitespace(c) {
            if i > 0 && !is_whitespace(chars[i - 1]) && v.len() > 0 {
                assert(shown[shown.len() - 2] == chars@[i - 1]);
                let last = v.len() - 1;
                let mut word = v[last].clone();
                word.push(c);
                v.set(last, word);
                assert(texts(v@) =~= texts(before).update(last as int, before[last as int]@.push(c)));
            } else {
                let mut word = String::new();
                word.push(c);
                v.push(word);
                assert(word@ =~= seq![c]);
                assert(texts(v@) =~= texts(before).push(seq![c]));
            }
        }
        i += 1;
    }
    assert(s@.take(i as int) =~= s@);
    v
}

/// Whether a list of strings holds this text.
pub fn holds_text(list: &Vec<String>, x: &str) -> (b: bool)
    ensures
        b == texts(list@).contains(x@),
{
    let mut i: usize = 0;
    while i < list.len()
        invariant
            i <= list.len(),
            forall|k: int| 0 <= k < i ==> (#[trigger] texts(list@)[k]) != x@,
        decreases list.len() - i,
    {
        if str_eq(list[i].as_str(), x) {
            assert(texts(list@)[i as int] == x@);
            return true;
        }
        i += 1;
    }
    false
}

} // verus!
