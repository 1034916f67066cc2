//! Character names as they are shown and as they are read.

use super::args::{character_for, character_key, character_named};
use crate::roles::data::name_of;
use crate::roles::Character;
use crate::text::{is_white, lower, lowered, other_than, trimmed, without};
use vstd::prelude::*;

verus! {

proof fn keeping_all(s: Seq<char>, x: char)
    requires
        forall|i: int| 0 <= i < s.len() ==> #[trigger] s[i] != x,
    ensures
        without(s, x) == s,
    decreases s.len(),
{
    reveal(Seq::filter);
    if s.len() > 0 {
        let front = s.drop_last();
        assert forall|i: int| 0 <= i < front.len() implies #[trigger] front[i] != x by {
            assert(front[i] == s[i]);
        }
        keeping_all(front, x);
        assert(s[s.len() - 1] != x);
        assert(front.push(s.last()) =~= s);
    } else {
        assert(without(s, x) =~= s);
    }
}

proof fn dropping_in_parts(a: Seq<char>, b: Seq<char>, x: char)
    ensures
        without(a + b, x) == without(a, x) + without(b, x),
    decreases b.len(),
{
    reveal(Seq::filter);
    if b.len() == 0 {
        assert(a + b =~= a);
        assert(without(a, x) + without(b, x) =~= without(a, x));
    } else {
        dropping_in_parts(a, b.drop_last(), x);
        assert((a + b).drop_last() =~= a + b.drop_last());
        assert(without(a + b, x) =~= without(a, x) + without(b, x));
    }
}

/// `low` is the word in lower case, and made of letters.
spec fn spells(word: Seq<char>, low: Seq<char>) -> bool {
    &&& word.len() == low.len()
    &&& word.len() > 0
    &&& forall|i: int|
        0 <= i < word.len() ==> lower(#[trigger] word[i]) == low[i] && 'a' <= low[i] <= 'z'
}

proof fn spelling_is_letters(word: Seq<char>, low: Seq<char>)
    requires
        spells(word, low),
    ensures
        forall|i: int| 0 <= i < low.len() ==> 'a' <= #[trigger] low[i] <= 'z',
{
    assert forall|i: int| 0 <= i < low.len() implies 'a' <= #[trigger] low[i] <= 'z' by {
        assert(lower(word[i]) == low[i]);
    }
}

proof fn words_are_not_trimmed(s: Seq<char>)
    requires
        s.len() > 0,
        'a' <= lower(s[0]) <= 'z',
        'a' <= lower(s.last()) <= 'z',
    ensures
        trimmed(s) == s,
{
    assert(!is_white(s[0]));
    assert(!is_white(s.last()));
}

proof fn key_of_word(word: Seq<char>, low: Seq<char>)
    requires
        spells(word, low),
    ensures
        character_key(word) == low,
{
    assert(lower(word[0]) == low[0]);
    assert(lower(word[word.len() - 1]) == low[low.len() - 1]);
    words_are_not_trimmed(word);
    assert(lowered(word) =~= low);
    spelling_is_letters(word, low);
    keeping_all(low, ' ');
    keeping_all(low, '_');
    keeping_all(low, '-');
}

proof fn key_of_two_words(a: Seq<char>, b: Seq<char>, x: Seq<char>, y: Seq<char>)
    requires
        spells(a, x),
        spells(b, y),
    ensures
        character_key(a + seq![' '] + b) == x + y,
{
    let name = a + seq![' '] + b;
    spelling_is_letters(a, x);
    spelling_is_letters(b, y);
    assert(lower(a[0]) == x[0]);
    assert(lower(b[b.len() - 1]) == y[y.len() - 1]);
    assert(name[0] == a[0] && name.last() == b[b.len() - 1]);
    words_are_not_trimmed(name);
    assert(lower(' ') == ' ');
    assert(lowered(name) =~= x + seq![' '] + y);
    dropping_in_parts(x + seq![' '], y, ' ');
    dropping_in_parts(x, seq![' '], ' ');
    keeping_all(x, ' ');
    keeping_all(y, ' ');
    assert(without(seq![' '], ' ') =~= seq![]) by {
        reveal(Seq::filter);
        assert(seq![' '].drop_last() =~= seq![]);
        assert(Seq::<char>::empty().filter(other_than(' ')) =~= seq![]);
    }
    assert(x + Seq::<char>::empty() =~= x);
    let low = x + y;
    assert forall|i: int| 0 <= i < low.len() implies 'a' <= #[trigger] low[i] <= 'z' by {
        if i < x.len() {
            assert(low[i] == x[i]);
        } else {
            assert(low[i] == y[i - x.len()]);
        }
    }
    keeping_all(low, '_');
    keeping_all(low, '-');
}

/// No two keys have both their length and their first letter in common.
proof fn keys_differ()
    ensures
        "washerwoman"@.len() == 11 && "washerwoman"@[0] == 'w',
        "librarian"@.len() == 9 && "librarian"@[0] == 'l',
        "investigator"@.len() == 12 && "investigator"@[0] == 'i',
        "chef"@.len() == 4 && "chef"@[0] == 'c',
        "empath"@.len() == 6 && "empath"@[0] == 'e',
        "fortuneteller"@.len() == 13 && "fortuneteller"@[0] == 'f',
        "undertaker"@.len() == 10 && "undertaker"@[0] == 'u',
        "monk"@.len() == 4 && "monk"@[0] == 'm',
        "ravenkeeper"@.len() == 11 && "ravenkeeper"@[0] == 'r',
        "virgin"@.len() == 6 && "virgin"@[0] == 'v',
        "slayer"@.len() == 6 && "slayer"@[0] == 's',
        "soldier"@.len() == 7 && "soldier"@[0] == 's',
        "mayor"@.len() == 5 && "mayor"@[0] == 'm',
        "butler"@.len() == 6 && "butler"@[0] == 'b',
        "drunk"@.len() == 5 && "drunk"@[0] == 'd',
        "recluse"@.len() == 7 && "recluse"@[0] == 'r',
        "saint"@.len() == 5 && "saint"@[0] == 's',
        "poisoner"@.len() == 8 && "poisoner"@[0] == 'p',
        "spy"@.len() == 3 && "spy"@[0] == 's',
        "scarletwoman"@.len() == 12 && "scarletwoman"@[0] == 's',
        "baron"@.len() == 5 && "baron"@[0] == 'b',
        "imp"@.len() == 3 && "imp"@[0] == 'i',
{
    reveal_strlit("washerwoman");
    reveal_strlit("librarian");
    reveal_strlit("investigator");
    reveal_strlit("chef");
    reveal_strlit("empath");
    reveal_strlit("fortuneteller");
    reveal_strlit("undertaker");
    reveal_strlit("monk");
    reveal_strlit("ravenkeeper");
    reveal_strlit("virgin");
    reveal_strlit("slayer");
    reveal_strlit("soldier");
    reveal_strlit("mayor");
    reveal_strlit("butler");
    reveal_strlit("drunk");
    reveal_strlit("recluse");
    reveal_strlit("saint");
    reveal_strlit("poisoner");
    reveal_strlit("spy");
    reveal_strlit("scarletwoman");
    reveal_strlit("baron");
    reveal_strlit("imp");
}

/// A character's display name is read back as that character.
pub proof fn display_names_read_back(c: Character)
    ensures
        character_named(name_of(c)) == Ok::<Character, super::args::RpcErrorView>(c),
{
    keys_differ();
    match c {
        Character::Washerwoman => {
            reveal_strlit("Washerwoman");
            reveal_strlit("washerwoman");
            assert("Washerwoman"@ =~= seq!['W', 'a', 's', 'h', 'e', 'r', 'w', 'o', 'm', 'a', 'n']);
            assert("washerwoman"@ =~= seq!['w', 'a', 's', 'h', 'e', 'r', 'w', 'o', 'm', 'a', 'n']);
            key_of_word("Washerwoman"@, "washerwoman"@);
            assert(character_for("washerwoman"@) == Some(c));
        },
        Character::Librarian => {
            reveal_strlit("Librarian");
            reveal_strlit("librarian");
            assert("Librarian"@ =~= seq!['L', 'i', 'b', 'r', 'a', 'r', 'i', 'a', 'n']);
            assert("librarian"@ =~= seq!['l', 'i', 'b', 'r', 'a', 'r', 'i', 'a', 'n']);
            key_of_word("Librarian"@, "librarian"@);
            assert(character_for("librarian"@) == Some(c));
        },
        Character::Investigator => {
            reveal_strlit("Investigator");
            reveal_strlit("investigator");
            assert("Investigator"@ =~= seq![
                'I', 'n', 'v', 'e', 's', 't', 'i', 'g', 'a', 't', 'o', 'r',
            ]);
            assert("investigator"@ =~= seq![
                'i', 'n', 'v', 'e', 's', 't', 'i', 'g', 'a', 't', 'o', 'r',
            ]);
            key_of_word("Investigator"@, "investigator"@);
            assert(character_for("investigator"@) == Some(c));
        },
        Character::Chef => {
            reveal_strlit("Chef");
            reveal_strlit("chef");
            assert("Chef"@ =~= seq!['C', 'h', 'e', 'f']);
            assert("chef"@ =~= seq!['c', 'h', 'e', 'f']);
            key_of_word("Chef"@, "chef"@);
            assert(character_for("chef"@) == Some(c));
        },
        Character::Empath => {
            reveal_strlit("Empath");
            reveal_strlit("empath");
            assert("Empath"@ =~= seq!['E', 'm', 'p', 'a', 't', 'h']);
            assert("empath"@ =~= seq!['e', 'm', 'p', 'a', 't', 'h']);
            key_of_word("Empath"@, "empath"@);
            assert(character_for("empath"@) == Some(c));
        },
        Character::FortuneTeller => {
            reveal_strlit("Fortune Teller");
            reveal_strlit("fortuneteller");
            assert("Fortune Teller"@ =~= seq![
                'F', 'o', 'r', 't', 'u', 'n', 'e', ' ', 'T', 'e', 'l', 'l', 'e', 'r',
            ]);
            assert("fortuneteller"@ =~= seq![
                'f', 'o', 'r', 't', 'u', 'n', 'e', 't', 'e', 'l', 'l', 'e', 'r',
            ]);
            let a: Seq<char> = seq!['F', 'o', 'r', 't', 'u', 'n', 'e'];
            let b: Seq<char> = seq!['T', 'e', 'l', 'l', 'e', 'r'];
            let x: Seq<char> = seq!['f', 'o', 'r', 't', 'u', 'n', 'e'];
            let y: Seq<char> = seq!['t', 'e', 'l', 'l', 'e', 'r'];
            assert("Fortune Teller"@ =~= a + seq![' '] + b);
            assert("fortuneteller"@ =~= x + y);
            key_of_two_words(a, b, x, y);
            assert(character_for("fortuneteller"@) == Some(c));
        },
        Character::Undertaker => {
            reveal_strlit("Undertaker");
            reveal_strlit("undertaker");
            assert("Undertaker"@ =~= seq!['U', 'n', 'd', 'e', 'r', 't', 'a', 'k', 'e', 'r']);
            assert("undertaker"@ =~= seq!['u', 'n', 'd', 'e', 'r', 't', 'a', 'k', 'e', 'r']);
            key_of_word("Undertaker"@, "undertaker"@);
            assert(character_for("undertaker"@) == Some(c));
        },
        Character::Monk => {
            reveal_strlit("Monk");
            reveal_strlit("monk");
            assert("Monk"@ =~= seq!['M', 'o', 'n', 'k']);
            assert("monk"@ =~= seq!['m', 'o', 'n', 'k']);
            key_of_word("Monk"@, "monk"@);
            assert(character_for("monk"@) == Some(c));
        },
        Character::Ravenkeeper => {
            reveal_strlit("Ravenkeeper");
            reveal_strlit("ravenkeeper");
            assert("Ravenkeeper"@ =~= seq!['R', 'a', 'v', 'e', 'n', 'k', 'e', 'e', 'p', 'e', 'r']);
            assert("ravenkeeper"@ =~= seq!['r', 'a', 'v', 'e', 'n', 'k', 'e', 'e', 'p', 'e', 'r']);
            key_of_word("Ravenkeeper"@, "ravenkeeper"@);
            assert(character_for("ravenkeeper"@) == Some(c));
        },
        Character::Virgin => {
            reveal_strlit("Virgin");
            reveal_strlit("virgin");
            assert("Virgin"@ =~= seq!['V', 'i', 'r', 'g', 'i', 'n']);
            assert("virgin"@ =~= seq!['v', 'i', 'r', 'g', 'i', 'n']);
            key_of_word("Virgin"@, "virgin"@);
            assert(character_for("virgin"@) == Some(c));
        },
        Character::Slayer => {
            reveal_strlit("Slayer");
            reveal_strlit("slayer");
            assert("Slayer"@ =~= seq!['S', 'l', 'a', 'y', 'e', 'r']);
            assert("slayer"@ =~= seq!['s', 'l', 'a', 'y', 'e', 'r']);
            key_of_word("Slayer"@, "slayer"@);
            assert(character_for("slayer"@) == Some(c));
        },
        Character::Soldier => {
            reveal_strlit("Soldier");
            reveal_strlit("soldier");
            assert("Soldier"@ =~= seq!['S', 'o', 'l', 'd', 'i', 'e', 'r']);
            assert("soldier"@ =~= seq!['s', 'o', 'l', 'd', 'i', 'e', 'r']);
            key_of_word("Soldier"@, "soldier"@);
            assert(character_for("soldier"@) == Some(c));
        },
        Character::Mayor => {
            reveal_strlit("Mayor");
            reveal_strlit("mayor");
            assert("Mayor"@ =~= seq!['M', 'a', 'y', 'o', 'r']);
            assert("mayor"@ =~= seq!['m', 'a', 'y', 'o', 'r']);
            key_of_word("Mayor"@, "mayor"@);
            assert(character_for("mayor"@) == Some(c));
        },
        Character::Butler => {
            reveal_strlit("Butler");
            reveal_strlit("butler");
            assert("Butler"@ =~= seq!['B', 'u', 't', 'l', 'e', 'r']);
            assert("butler"@ =~= seq!['b', 'u', 't', 'l', 'e', 'r']);
            key_of_word("Butler"@, "butler"@);
            assert(character_for("butler"@) == Some(c));
        },
        Character::Drunk => {
            reveal_strlit("Drunk");
            reveal_strlit("drunk");
            assert("Drunk"@ =~= seq!['D', 'r', 'u', 'n', 'k']);
            assert("drunk"@ =~= seq!['d', 'r', 'u', 'n', 'k']);
            key_of_word("Drunk"@, "drunk"@);
            assert(character_for("drunk"@) == Some(c));
        },
        Character::Recluse => {
            reveal_strlit("Recluse");
            reveal_strlit("recluse");
            assert("Recluse"@ =~= seq!['R', 'e', 'c', 'l', 'u', 's', 'e']);
            assert("recluse"@ =~= seq!['r', 'e', 'c', 'l', 'u', 's', 'e']);
            key_of_word("Recluse"@, "recluse"@);
            assert(character_for("recluse"@) == Some(c));
        },
        Character::Saint => {
            reveal_strlit("Saint");
            reveal_strlit("saint");
            assert("Saint"@ =~= seq!['S', 'a', 'i', 'n', 't']);
            assert("saint"@ =~= seq!['s', 'a', 'i', 'n', 't']);
            key_of_word("Saint"@, "saint"@);
            assert(character_for("saint"@) == Some(c));
        },
        Character::Poisoner => {
            reveal_strlit("Poisoner");
            reveal_strlit("poisoner");
            assert("Poisoner"@ =~= seq!['P', 'o', 'i', 's', 'o', 'n', 'e', 'r']);
            assert("poisoner"@ =~= seq!['p', 'o', 'i', 's', 'o', 'n', 'e', 'r']);
            key_of_word("Poisoner"@, "poisoner"@);
            assert(character_for("poisoner"@) == Some(c));
        },
        Character::Spy => {
            reveal_strlit("Spy");
            reveal_strlit("spy");
            assert("Spy"@ =~= seq!['S', 'p', 'y']);
            assert("spy"@ =~= seq!['s', 'p', 'y']);
            key_of_word("Spy"@, "spy"@);
            assert(character_for("spy"@) == Some(c));
        },
        Character::ScarletWoman => {
            reveal_strlit("Scarlet Woman");
            reveal_strlit("scarletwoman");
            assert("Scarlet Woman"@ =~= seq![
                'S', 'c', 'a', 'r', 'l', 'e', 't', ' ', 'W', 'o', 'm', 'a', 'n',
            ]);
            assert("scarletwoman"@ =~= seq![
                's', 'c', 'a', 'r', 'l', 'e', 't', 'w', 'o', 'm', 'a', 'n',
            ]);
            let a: Seq<char> = seq!['S', 'c', 'a', 'r', 'l', 'e', 't'];
            let b: Seq<char> = seq!['W', 'o', 'm', 'a', 'n'];
            let x: Seq<char> = seq!['s', 'c', 'a', 'r', 'l', 'e', 't'];
            let y: Seq<char> = seq!['w', 'o', 'm', 'a', 'n'];
            assert("Scarlet Woman"@ =~= a + seq![' '] + b);
            assert("scarletwoman"@ =~= x + y);
            key_of_two_words(a, b, x, y);
            assert(character_for("scarletwoman"@) == Some(c));
        },
        Character::Baron => {
            reveal_strlit("Baron");
            reveal_strlit("baron");
            assert("Baron"@ =~= seq!['B', 'a', 'r', 'o', 'n']);
            assert("baron"@ =~= seq!['b', 'a', 'r', 'o', 'n']);
            key_of_word("Baron"@, "baron"@);
            assert(character_for("baron"@) == Some(c));
        },
        Character::Imp => {
            reveal_strlit("Imp");
            reveal_strlit("imp");
            assert("Imp"@ =~= seq!['I', 'm', 'p']);
            assert("imp"@ =~= seq!['i', 'm', 'p']);
            key_of_word("Imp"@, "imp"@);
            assert(character_for("imp"@) == Some(c));
        },
    }
}

/// Different characters have different display names.
pub proof fn display_names_differ(c: Character, d: Character)
    ensures
        name_of(c) == name_of(d) <==> c == d,
{
    display_names_read_back(c);
    display_names_read_back(d);
}

} // verus!
