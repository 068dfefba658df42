//! One-time tokens: twelve letters, each drawn at random.

use rand::Rng;
use vstd::prelude::*;
use vstd::string::*;

verus! {

/// Number of characters in a token.
pub const TOKEN_LEN: usize = 12;

/// Number of letters a token character is drawn from.
pub const ALPHABET_LEN: usize = 52;

/// The letters a token is drawn from, lower case first.
pub open spec fn alphabet() -> Seq<char> {
    "abcdefghijklmnopqrstuvwxyzABCDEFGHIJKLMNOPQRSTUVWXYZ"@
}

/// `c` is an upper- or lower-case ASCII letter.
pub open spec fn is_letter(c: char) -> bool {
    ('a' <= c && c <= 'z') || ('A' <= c && c <= 'Z')
}

/// `s` has the shape of a token: `TOKEN_LEN` letters.
pub open spec fn is_token(s: Seq<char>) -> bool {
    &&& s.len() == TOKEN_LEN
    &&& forall|i: int| 0 <= i < s.len() ==> is_letter(#[trigger] s[i])
}

/// The alphabet holds `ALPHABET_LEN` characters, all of them letters.
pub proof fn lemma_alphabet_letters()
    ensures
        alphabet().len() == ALPHABET_LEN,
        forall|i: int| 0 <= i < alphabet().len() ==> is_letter(#[trigger] alphabet()[i]),
{
    reveal_strlit("abcdefghijklmnopqrstuvwxyzABCDEFGHIJKLMNOPQRSTUVWXYZ");
}

/// A number below `bound`, chosen at random.
///
/// Calls `rand::rng().random_range(0..bound)`. Trusted: the value sampled from
/// a half-open range lies in it. `random_range` panics on an empty range,
/// which `bound > 0` rules out. The thread's generator also panics when the
/// operating system's random source fails as it is set up or reseeded; no
/// argument can rule that out. Nothing is claimed of which value comes back.
#[verifier::external_body]
fn random_below(bound: usize) -> (pick: usize)
    requires
        bound > 0,
    ensures
        pick < bound,
{
    rand::rng().random_range(0..bound)
}

/// The letter at position `index` of the alphabet, as a one-character string.
pub fn letter_at(index: usize) -> (letter: &'static str)
    requires
        index < ALPHABET_LEN,
    ensures
        letter@ == seq![alphabet()[index as int]],
{
    let letters = "abcdefghijklmnopqrstuvwxyzABCDEFGHIJKLMNOPQRSTUVWXYZ";
    proof {
        lemma_alphabet_letters();
    }
    let letter = letters.substring_char(index, index + 1);
    assert(letter@ =~= seq![alphabet()[index as int]]);
    letter
}

/// The word spelled by `picks`, each an index into the alphabet.
pub open spec fn word_of(picks: Seq<usize>) -> Seq<char> {
    Seq::new(picks.len(), |i: int| alphabet()[picks[i] as int])
}

/// Spells the word that `picks` selects from the alphabet.
pub fn word_from_picks(picks: &Vec<usize>) -> (word: String)
    requires
        forall|i: int| 0 <= i < picks.len() ==> #[trigger] picks[i] < ALPHABET_LEN,
    ensures
        word@ == word_of(picks@),
{
    let mut word = String::new();
    let mut i: usize = 0;
    while i < picks.len()
        invariant
            i <= picks.len(),
            forall|k: int| 0 <= k < picks.len() ==> #[trigger] picks[k] < ALPHABET_LEN,
            word@ == word_of(picks@.subrange(0, i as int)),
        decreases picks.len() - i,
    {
        let letter = letter_at(picks[i]);
        word.append(letter);
        i += 1;
        assert(word@ =~= word_of(picks@.subrange(0, i as int)));
    }
    assert(picks@.subrange(0, i as int) =~= picks@);
    word
}

/// A word of in-range picks, `TOKEN_LEN` of them, is a token.
pub proof fn lemma_word_is_token(picks: Seq<usize>)
    requires
        picks.len() == TOKEN_LEN,
        forall|i: int| 0 <= i < picks.len() ==> #[trigger] picks[i] < ALPHABET_LEN,
    ensures
        is_token(word_of(picks)),
{
    lemma_alphabet_letters();
    let w = word_of(picks);
    assert forall|i: int| 0 <= i < w.len() implies is_letter(#[trigger] w[i]) by {
        assert(picks[i] < ALPHABET_LEN);
        assert(w[i] == alphabet()[picks[i] as int]);
    }
}

/// A fresh token: `TOKEN_LEN` letters, each picked at random from the
/// alphabet. Which letters is left to chance; the shape is not.
pub fn generate_random_word() -> (word: String)
    ensures
        is_token(word@),
{
    let mut picks: Vec<usize> = Vec::new();
    let mut i: usize = 0;
    while i < TOKEN_LEN
        invariant
            i <= TOKEN_LEN,
            picks.len() == i,
            forall|k: int| 0 <= k < picks.len() ==> #[trigger] picks[k] < ALPHABET_LEN,
        decreases TOKEN_LEN - i,
    {
        let pick = random_below(ALPHABET_LEN);
        picks.push(pick);
        i += 1;
    }
    proof {
        lemma_word_is_token(picks@);
    }
    word_from_picks(&picks)
}

} // verus!
