//! The dictionary of secret words, guess validation, and the sentinel guess
//! used at setup.

use vstd::prelude::*;

verus! {

use crate::WORD_LENGTH;
use vstd::string::StringSliceAdditionalSpecFns;

/// A lowercase ASCII letter.
pub open spec fn is_lowercase_letter(c: char) -> bool {
    'a' <= c && c <= 'z'
}

/// A word the game accepts, as a guess or as a secret: exactly
/// `WORD_LENGTH` lowercase letters.
pub open spec fn is_valid_word(chars: Seq<char>) -> bool {
    &&& chars.len() == WORD_LENGTH
    &&& forall|i: int| 0 <= i < chars.len() ==> is_lowercase_letter(#[trigger] chars[i])
}

/// A valid word is ASCII, so its bytes mirror its letters one for one.
pub proof fn lemma_valid_word_bytes(s: &str)
    requires
        is_valid_word(s@),
    ensures
        s.spec_bytes().len() == WORD_LENGTH,
        forall|i: int| 0 <= i < WORD_LENGTH ==> s.spec_bytes()[i] == (#[trigger] s@[i]) as u8,
{
    assert(vstd::string::is_ascii(s));
    vstd::string::is_ascii_spec_bytes(s);
}

/// Does the guess consist of exactly `WORD_LENGTH` lowercase letters?
/// Anything else — wrong length, uppercase, punctuation such as the setup
/// sentinel — is rejected and never reaches a round.
pub fn validate_guess(guess: &str) -> (r: bool)
    ensures
        r == is_valid_word(guess@),
{
    if guess.unicode_len() != WORD_LENGTH {
        return false;
    }
    let mut i: usize = 0;
    while i < WORD_LENGTH
        invariant
            i <= WORD_LENGTH,
            guess@.len() == WORD_LENGTH,
            forall|j: int| 0 <= j < i ==> is_lowercase_letter(#[trigger] guess@[j]),
        decreases WORD_LENGTH - i,
    {
        let c = guess.get_char(i);
        if c < 'a' || c > 'z' {
            return false;
        }
        i += 1;
    }
    true
}

/// The letters of the sentinel guess used at setup.
pub open spec fn sentinel_chars() -> Seq<char> {
    seq!['_', '_', '_']
}

/// The guess the player submits at setup, purely to learn the committed
/// digest. It has the length of a word but holds no letters, so it is never
/// a valid guess and never equals a secret drawn from the dictionary.
pub fn sentinel_guess() -> (r: &'static str)
    ensures
        r@ == sentinel_chars(),
        r.spec_bytes().len() == WORD_LENGTH,
        !is_valid_word(r@),
{
    let s = "___";
    proof {
        reveal_strlit("___");
        assert(s@ =~= sentinel_chars());
        assert(vstd::string::is_ascii(s));
        vstd::string::is_ascii_spec_bytes(s);
        assert(!is_lowercase_letter(s@[0]));
    }
    s
}

/// The sentinel can never collide with a word the dictionary could supply:
/// its underscores are not letters.
pub proof fn lemma_sentinel_never_a_word(w: Seq<char>)
    requires
        is_valid_word(w),
    ensures
        w != sentinel_chars(),
{
    assert(!is_lowercase_letter(sentinel_chars()[0]));
}

/// The letters of every word the fixed dictionary holds, in its order.
pub open spec fn dictionary() -> Seq<Seq<char>> {
    seq![
        "act"@, "ant"@, "ape"@, "arm"@, "ash"@, "ask"@,
        "bad"@, "bag"@, "bat"@, "bed"@, "bee"@, "bet"@,
        "big"@, "bin"@, "bit"@, "box"@, "boy"@, "bun"@,
        "bus"@, "but"@, "buy"@, "cab"@, "cat"@, "cow"@,
        "cry"@, "cut"@, "den"@, "dog"@, "dot"@, "dry"@,
        "egg"@, "end"@, "eat"@, "far"@, "fat"@, "few"@,
        "fix"@, "fox"@, "fun"@, "gas"@, "get"@, "guy"@,
        "hen"@, "hit"@, "hop"@, "hot"@, "hug"@, "jam"@,
        "jar"@, "jet"@, "kid"@, "lap"@, "let"@, "lid"@,
        "log"@, "lot"@, "man"@, "map"@, "mat"@, "net"@,
        "not"@, "nut"@, "oak"@, "oil"@, "opt"@, "pan"@,
        "pat"@, "pet"@, "pot"@, "put"@, "rat"@, "rob"@,
        "rod"@, "row"@, "rub"@, "run"@, "sat"@, "set"@,
        "sip"@, "sit"@, "sob"@, "sun"@, "tap"@, "top"@,
        "toy"@, "use"@, "van"@, "vet"@, "won"@, "yet"@,
    ]
}

/// Every word of the dictionary is a valid word.
pub proof fn lemma_dictionary_valid()
    ensures
        forall|i: int| 0 <= i < dictionary().len() ==> is_valid_word(#[trigger] dictionary()[i]),
{
    reveal_strlit("act");
    assert(is_valid_word("act"@));
    reveal_strlit("ant");
    assert(is_valid_word("ant"@));
    reveal_strlit("ape");
    assert(is_valid_word("ape"@));
    reveal_strlit("arm");
    assert(is_valid_word("arm"@));
    reveal_strlit("ash");
    assert(is_valid_word("ash"@));
    reveal_strlit("ask");
    assert(is_valid_word("ask"@));
    reveal_strlit("bad");
    assert(is_valid_word("bad"@));
    reveal_strlit("bag");
    assert(is_valid_word("bag"@));
    reveal_strlit("bat");
    assert(is_valid_word("bat"@));
    reveal_strlit("bed");
    assert(is_valid_word("bed"@));
    reveal_strlit("bee");
    assert(is_valid_word("bee"@));
    reveal_strlit("bet");
    assert(is_valid_word("bet"@));
    reveal_strlit("big");
    assert(is_valid_word("big"@));
    reveal_strlit("bin");
    assert(is_valid_word("bin"@));
    reveal_strlit("bit");
    assert(is_valid_word("bit"@));
    reveal_strlit("box");
    assert(is_valid_word("box"@));
    reveal_strlit("boy");
    assert(is_valid_word("boy"@));
    reveal_strlit("bun");
    assert(is_valid_word("bun"@));
    reveal_strlit("bus");
    assert(is_valid_word("bus"@));
    reveal_strlit("but");
    assert(is_valid_word("but"@));
    reveal_strlit("buy");
    assert(is_valid_word("buy"@));
    reveal_strlit("cab");
    assert(is_valid_word("cab"@));
    reveal_strlit("cat");
    assert(is_valid_word("cat"@));
    reveal_strlit("cow");
    assert(is_valid_word("cow"@));
    reveal_strlit("cry");
    assert(is_valid_word("cry"@));
    reveal_strlit("cut");
    assert(is_valid_word("cut"@));
    reveal_strlit("den");
    assert(is_valid_word("den"@));
    reveal_strlit("dog");
    assert(is_valid_word("dog"@));
    reveal_strlit("dot");
    assert(is_valid_word("dot"@));
    reveal_strlit("dry");
    assert(is_valid_word("dry"@));
    reveal_strlit("egg");
    assert(is_valid_word("egg"@));
    reveal_strlit("end");
    assert(is_valid_word("end"@));
    reveal_strlit("eat");
    assert(is_valid_word("eat"@));
    reveal_strlit("far");
    assert(is_valid_word("far"@));
    reveal_strlit("fat");
    assert(is_valid_word("fat"@));
    reveal_strlit("few");
    assert(is_valid_word("few"@));
    reveal_strlit("fix");
    assert(is_valid_word("fix"@));
    reveal_strlit("fox");
    assert(is_valid_word("fox"@));
    reveal_strlit("fun");
    assert(is_valid_word("fun"@));
    reveal_strlit("gas");
    assert(is_valid_word("gas"@));
    reveal_strlit("get");
    assert(is_valid_word("get"@));
    reveal_strlit("guy");
    assert(is_valid_word("guy"@));
    reveal_strlit("hen");
    assert(is_valid_word("hen"@));
    reveal_strlit("hit");
    assert(is_valid_word("hit"@));
    reveal_strlit("hop");
    assert(is_valid_word("hop"@));
    reveal_strlit("hot");
    assert(is_valid_word("hot"@));
    reveal_strlit("hug");
    assert(is_valid_word("hug"@));
    reveal_strlit("jam");
    assert(is_valid_word("jam"@));
    reveal_strlit("jar");
    assert(is_valid_word("jar"@));
    reveal_strlit("jet");
    assert(is_valid_word("jet"@));
    reveal_strlit("kid");
    assert(is_valid_word("kid"@));
    reveal_strlit("lap");
    assert(is_valid_word("lap"@));
    reveal_strlit("let");
    assert(is_valid_word("let"@));
    reveal_strlit("lid");
    assert(is_valid_word("lid"@));
    reveal_strlit("log");
    assert(is_valid_word("log"@));
    reveal_strlit("lot");
    assert(is_valid_word("lot"@));
    reveal_strlit("man");
    assert(is_valid_word("man"@));
    reveal_strlit("map");
    assert(is_valid_word("map"@));
    reveal_strlit("mat");
    assert(is_valid_word("mat"@));
    reveal_strlit("net");
    assert(is_valid_word("net"@));
    reveal_strlit("not");
    assert(is_valid_word("not"@));
    reveal_strlit("nut");
    assert(is_valid_word("nut"@));
    reveal_strlit("oak");
    assert(is_valid_word("oak"@));
    reveal_strlit("oil");
    assert(is_valid_word("oil"@));
    reveal_strlit("opt");
    assert(is_valid_word("opt"@));
    reveal_strlit("pan");
    assert(is_valid_word("pan"@));
    reveal_strlit("pat");
    assert(is_valid_word("pat"@));
    reveal_strlit("pet");
    assert(is_valid_word("pet"@));
    reveal_strlit("pot");
    assert(is_valid_word("pot"@));
    reveal_strlit("put");
    assert(is_valid_word("put"@));
    reveal_strlit("rat");
    assert(is_valid_word("rat"@));
    reveal_strlit("rob");
    assert(is_valid_word("rob"@));
    reveal_strlit("rod");
    assert(is_valid_word("rod"@));
    reveal_strlit("row");
    assert(is_valid_word("row"@));
    reveal_strlit("rub");
    assert(is_valid_word("rub"@));
    reveal_strlit("run");
    assert(is_valid_word("run"@));
    reveal_strlit("sat");
    assert(is_valid_word("sat"@));
    reveal_strlit("set");
    assert(is_valid_word("set"@));
    reveal_strlit("sip");
    assert(is_valid_word("sip"@));
    reveal_strlit("sit");
    assert(is_valid_word("sit"@));
    reveal_strlit("sob");
    assert(is_valid_word("sob"@));
    reveal_strlit("sun");
    assert(is_valid_word("sun"@));
    reveal_strlit("tap");
    assert(is_valid_word("tap"@));
    reveal_strlit("top");
    assert(is_valid_word("top"@));
    reveal_strlit("toy");
    assert(is_valid_word("toy"@));
    reveal_strlit("use");
    assert(is_valid_word("use"@));
    reveal_strlit("van");
    assert(is_valid_word("van"@));
    reveal_strlit("vet");
    assert(is_valid_word("vet"@));
    reveal_strlit("won");
    assert(is_valid_word("won"@));
    reveal_strlit("yet");
    assert(is_valid_word("yet"@));
    assert forall|i: int| 0 <= i < dictionary().len() implies is_valid_word(
        #[trigger] dictionary()[i],
    ) by {
    }
}

/// The fixed dictionary of secret words: entry for entry, the words of
/// `dictionary`, so every entry is a valid word.
pub fn word_list() -> (r: Vec<&'static str>)
    ensures
        r@.len() == dictionary().len(),
        r@.len() == 90,
        forall|i: int| 0 <= i < r@.len() ==> (#[trigger] r@[i])@ == dictionary()[i],
        forall|i: int| 0 <= i < r@.len() ==> is_valid_word((#[trigger] r@[i])@),
{
    let mut words: Vec<&'static str> = Vec::new();
    words.push("act");
    words.push("ant");
    words.push("ape");
    words.push("arm");
    words.push("ash");
    words.push("ask");
    words.push("bad");
    words.push("bag");
    words.push("bat");
    words.push("bed");
    words.push("bee");
    words.push("bet");
    words.push("big");
    words.push("bin");
    words.push("bit");
    words.push("box");
    words.push("boy");
    words.push("bun");
    words.push("bus");
    words.push("but");
    words.push("buy");
    words.push("cab");
    words.push("cat");
    words.push("cow");
    words.push("cry");
    words.push("cut");
    words.push("den");
    words.push("dog");
    words.push("dot");
    words.push("dry");
    words.push("egg");
    words.push("end");
    words.push("eat");
    words.push("far");
    words.push("fat");
    words.push("few");
    words.push("fix");
    words.push("fox");
    words.push("fun");
    words.push("gas");
    words.push("get");
    words.push("guy");
    words.push("hen");
    words.push("hit");
    words.push("hop");
    words.push("hot");
    words.push("hug");
    words.push("jam");
    words.push("jar");
    words.push("jet");
    words.push("kid");
    words.push("lap");
    words.push("let");
    words.push("lid");
    words.push("log");
    words.push("lot");
    words.push("man");
    words.push("map");
    words.push("mat");
    words.push("net");
    words.push("not");
    words.push("nut");
    words.push("oak");
    words.push("oil");
    words.push("opt");
    words.push("pan");
    words.push("pat");
    words.push("pet");
    words.push("pot");
    words.push("put");
    words.push("rat");
    words.push("rob");
    words.push("rod");
    words.push("row");
    words.push("rub");
    words.push("run");
    words.push("sat");
    words.push("set");
    words.push("sip");
    words.push("sit");
    words.push("sob");
    words.push("sun");
    words.push("tap");
    words.push("top");
    words.push("toy");
    words.push("use");
    words.push("van");
    words.push("vet");
    words.push("won");
    words.push("yet");
    proof {
        lemma_dictionary_valid();
        assert forall|i: int| 0 <= i < words@.len() implies (#[trigger] words@[i])@
            == dictionary()[i] by {
        }
    }
    words
}

/// Relies on `rand::random_range`: a value drawn uniformly at random from
/// the given range; it panics on an empty range, so the bound must be
/// positive.
#[verifier::external_body]
fn random_below(n: usize) -> (r: usize)
    requires
        1 <= n,
    ensures
        r < n,
{
    rand::random_range(0..n)
}

/// Choose one secret word from the dictionary, uniformly at random: every
/// outcome is one of the dictionary's words.
pub fn pick_word() -> (r: &'static str)
    ensures
        is_valid_word(r@),
        r.spec_bytes().len() == WORD_LENGTH,
        exists|i: int| 0 <= i < dictionary().len() && r@ == #[trigger] dictionary()[i],
{
    let words = word_list();
    let i = random_below(words.len());
    let w = words[i];
    proof {
        assert(w@ == dictionary()[i as int]);
        lemma_valid_word_bytes(w);
    }
    w
}

} // verus!
