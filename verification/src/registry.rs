//! The registry of pending one-time tokens.
//!
//! Tokens are kept in the order they were issued. A token stays pending until
//! a request that contains it consumes it; nothing ever expires.

use crate::text::{occurs_in, str_contains};
use crate::token::{generate_random_word, is_token};
use vstd::prelude::*;
use vstd::string::*;

verus! {

/// The character sequences of a run of strings, in order.
pub open spec fn views(tokens: Seq<String>) -> Seq<Seq<char>> {
    tokens.map_values(|s: String| s@)
}

/// `at` is the first position of `pending` whose token occurs in `text`.
pub open spec fn is_first_match(pending: Seq<Seq<char>>, text: Seq<char>, at: int) -> bool {
    &&& 0 <= at < pending.len()
    &&& occurs_in(pending[at], text)
    &&& forall|j: int| 0 <= j < at ==> !occurs_in(#[trigger] pending[j], text)
}

/// Some pending token occurs in `text`.
pub open spec fn any_match(pending: Seq<Seq<char>>, text: Seq<char>) -> bool {
    exists|i: int| 0 <= i < pending.len() && occurs_in(#[trigger] pending[i], text)
}

/// The position of the first pending token that occurs in `text`, if any does.
pub open spec fn first_match(pending: Seq<Seq<char>>, text: Seq<char>) -> Option<int> {
    if any_match(pending, text) {
        Some(choose|at: int| is_first_match(pending, text, at))
    } else {
        None
    }
}

/// A position that is the first match is what `first_match` gives.
pub proof fn lemma_first_match_is(pending: Seq<Seq<char>>, text: Seq<char>, at: int)
    requires
        is_first_match(pending, text, at),
    ensures
        first_match(pending, text) == Some(at),
{
    let chosen = choose|k: int| is_first_match(pending, text, k);
    assert(is_first_match(pending, text, chosen));
    if chosen < at {
        assert(!occurs_in(pending[chosen], text));
    } else if at < chosen {
        assert(!occurs_in(pending[at], text));
    }
}

/// If no pending token occurs in `text`, `first_match` gives nothing.
pub proof fn lemma_first_match_none(pending: Seq<Seq<char>>, text: Seq<char>)
    requires
        forall|j: int| 0 <= j < pending.len() ==> !occurs_in(#[trigger] pending[j], text),
    ensures
        first_match(pending, text) is None,
{
}

/// Whatever `first_match` gives is the first match, and it gives nothing only
/// when no pending token occurs in `text`.
pub proof fn lemma_first_match_ensures(pending: Seq<Seq<char>>, text: Seq<char>)
    ensures
        match first_match(pending, text) {
            Some(at) => is_first_match(pending, text, at),
            None => forall|j: int| 0 <= j < pending.len() ==> !occurs_in(#[trigger] pending[j], text),
        },
{
    if any_match(pending, text) {
        let some = choose|i: int| 0 <= i < pending.len() && occurs_in(#[trigger] pending[i], text);
        lemma_least_match(pending, text, some);
    }
}

/// Below any matching position there is a first one.
proof fn lemma_least_match(pending: Seq<Seq<char>>, text: Seq<char>, upto: int)
    requires
        0 <= upto < pending.len(),
        occurs_in(pending[upto], text),
    ensures
        exists|at: int| is_first_match(pending, text, at),
    decreases upto,
{
    if exists|j: int| 0 <= j < upto && occurs_in(#[trigger] pending[j], text) {
        let j = choose|j: int| 0 <= j < upto && occurs_in(#[trigger] pending[j], text);
        lemma_least_match(pending, text, j);
    } else {
        assert(is_first_match(pending, text, upto));
    }
}

/// The pending second-stage secrets, oldest first.
pub struct SecretRegistry {
    tokens: Vec<String>,
}

impl View for SecretRegistry {
    type V = Seq<Seq<char>>;

    closed spec fn view(&self) -> Seq<Seq<char>> {
        views(self.tokens@)
    }
}

impl SecretRegistry {
    /// An empty registry.
    pub fn new() -> (registry: Self)
        ensures
            registry@ == Seq::<Seq<char>>::empty(),
    {
        let registry = SecretRegistry { tokens: Vec::new() };
        assert(registry@ =~= Seq::<Seq<char>>::empty());
        registry
    }

    /// How many tokens are pending.
    pub fn len(&self) -> (n: usize)
        ensures
            n == self@.len(),
    {
        self.tokens.len()
    }

    /// The pending tokens, oldest first.
    pub fn tokens(&self) -> (tokens: &Vec<String>)
        ensures
            views(tokens@) == self@,
    {
        &self.tokens
    }

    /// A copy of the pending token at position `at`.
    pub fn token_at(&self, at: usize) -> (token: String)
        requires
            at < self@.len(),
        ensures
            token@ == self@[at as int],
    {
        self.tokens[at].clone()
    }

    /// Whether `token` is pending.
    pub fn holds(&self, token: &str) -> (held: bool)
        ensures
            held == self@.contains(token@),
    {
        let wanted = String::from_str(token);
        let mut i: usize = 0;
        while i < self.tokens.len()
            invariant
                i <= self.tokens.len(),
                wanted@ == token@,
                forall|j: int| 0 <= j < i ==> self@[j] != token@,
            decreases self.tokens.len() - i,
        {
            if self.tokens[i] == wanted {
                assert(self@[i as int] == token@);
                return true;
            }
            i += 1;
        }
        false
    }

    /// Appends `token` behind the tokens already pending.
    pub fn append(&mut self, token: String)
        ensures
            final(self)@ == old(self)@.push(token@),
    {
        self.tokens.push(token);
        assert(self@ =~= old(self)@.push(token@));
    }

    /// Issues a fresh random token: appends it and hands a copy back.
    pub fn issue(&mut self) -> (token: String)
        ensures
            is_token(token@),
            final(self)@ == old(self)@.push(token@),
    {
        let token = generate_random_word();
        self.append(token.clone());
        token
    }

    /// The position of the first pending token that occurs in `request`.
    pub fn find(&self, request: &str) -> (found: Option<usize>)
        ensures
            match found {
                Some(at) => first_match(self@, request@) == Some(at as int),
                None => first_match(self@, request@) is None,
            },
    {
        let mut i: usize = 0;
        while i < self.tokens.len()
            invariant
                i <= self.tokens.len(),
                forall|j: int| 0 <= j < i ==> !occurs_in(#[trigger] self@[j], request@),
            decreases self.tokens.len() - i,
        {
            if str_contains(request, self.tokens[i].as_str()) {
                proof {
                    assert(self@[i as int] == self.tokens[i as int]@);
                    lemma_first_match_is(self@, request@, i as int);
                }
                return Some(i);
            }
            assert(self@[i as int] == self.tokens[i as int]@);
            i += 1;
        }
        proof {
            lemma_first_match_none(self@, request@);
        }
        None
    }

    /// Removes the first pending token equal to `token`, if there is one, and
    /// says whether there was.
    pub fn remove(&mut self, token: &str) -> (removed: bool)
        ensures
            removed == old(self)@.contains(token@),
            final(self)@ == old(self)@.remove_value(token@),
    {
        let wanted = String::from_str(token);
        let mut i: usize = 0;
        while i < self.tokens.len()
            invariant
                i <= self.tokens.len(),
                wanted@ == token@,
                *self == *old(self),
                forall|j: int| 0 <= j < i ==> self@[j] != token@,
            decreases self.tokens.len() - i,
        {
            if self.tokens[i] == wanted {
                proof {
                    assert(self@[i as int] == token@);
                    old(self)@.index_of_first_ensures(token@);
                }
                self.tokens.remove(i);
                assert(self@ =~= old(self)@.remove(i as int));
                return true;
            }
            i += 1;
        }
        proof {
            old(self)@.index_of_first_ensures(token@);
        }
        false
    }

    /// Finds the first pending token that occurs in `request`, removes it from
    /// the registry and hands it back. With no such token the registry is
    /// left as it was.
    pub fn find_and_consume(&mut self, request: &str) -> (consumed: Option<String>)
        ensures
            match first_match(old(self)@, request@) {
                Some(at) => {
                    &&& consumed matches Some(token)
                    &&& token@ == old(self)@[at]
                    &&& final(self)@ == old(self)@.remove(at)
                },
                None => consumed is None && final(self)@ == old(self)@,
            },
    {
        match self.find(request) {
            Some(at) => {
                proof {
                    lemma_first_match_ensures(self@, request@);
                }
                let token = self.tokens.remove(at);
                assert(self@ =~= old(self)@.remove(at as int));
                assert(token@ == old(self)@[at as int]);
                Some(token)
            },
            None => None,
        }
    }
}

} // verus!
