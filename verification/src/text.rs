//! Strings as sequences of characters.

use vstd::prelude::*;
use vstd::std_specs::iter::IteratorSpec;
use vstd::string::*;

verus! {

/// Returns the characters of `text`, in order.
pub fn chars_of(text: &str) -> (chars: Vec<char>)
    ensures
        chars@ == text@,
{
    broadcast use {axiom_spec_iter, next_postcondition};

    let mut chars: Vec<char> = Vec::new();
    let mut rest = text.chars();
    loop
        invariant
            rest.obeys_prophetic_iter_laws(),
            rest.decrease() is Some,
            chars@ + rest.remaining() == text@,
        decreases rest.decrease()->0,
    {
        match rest.next() {
            Some(c) => {
                chars.push(c);
                assert(chars@ + rest.remaining() =~= text@);
            },
            None => {
                assert(chars@ =~= text@);
                return chars;
            },
        }
    }
}

/// Whether `word` stands in `text` at position `at`, letter for letter.
pub open spec fn stands_at(text: Seq<char>, at: int, word: Seq<char>) -> bool {
    0 <= at && at + word.len() <= text.len() && text.subrange(at, at + word.len()) == word
}

/// Whether `word` stands somewhere in `text`. The empty word stands in every
/// text.
pub open spec fn mentions(text: Seq<char>, word: Seq<char>) -> bool {
    exists|at: int| stands_at(text, at, word)
}

/// Tells whether `word` stands in `text` at position `at`.
pub fn holds_at(text: &Vec<char>, at: usize, word: &Vec<char>) -> (hit: bool)
    ensures
        hit == stands_at(text@, at as int, word@),
{
    if at > text.len() || text.len() - at < word.len() {
        return false;
    }
    let ghost window = text@.subrange(at as int, at + word@.len());
    let mut i: usize = 0;
    while i < word.len()
        invariant
            at + word@.len() <= text@.len() <= usize::MAX,
            window == text@.subrange(at as int, at + word@.len()),
            i <= word@.len(),
            forall|j: int| 0 <= j < i ==> window[j] == word@[j],
        decreases word@.len() - i,
    {
        if text[at + i] != word[i] {
            assert(window[i as int] != word@[i as int]);
            return false;
        }
        i = i + 1;
    }
    assert(window =~= word@);
    true
}

/// Tells whether `word` stands somewhere in `text`.
pub fn contains_word(text: &Vec<char>, word: &Vec<char>) -> (found: bool)
    ensures
        found == mentions(text@, word@),
{
    if word.len() > text.len() {
        return false;
    }
    let last = text.len() - word.len();
    let mut at: usize = 0;
    loop
        invariant
            last + word@.len() == text@.len(),
            at <= last,
            forall|j: int| 0 <= j < at ==> !stands_at(text@, j, word@),
        decreases last - at,
    {
        if holds_at(text, at, word) {
            return true;
        }
        if at == last {
            return false;
        }
        at = at + 1;
    }
}

} // verus!
