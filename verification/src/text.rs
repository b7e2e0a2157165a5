//! Looking for a phrase in a text.

use vstd::prelude::*;

verus! {

/// `phrase` stands in `text` from place `at` on.
pub open spec fn occurs_at(text: Seq<char>, phrase: Seq<char>, at: int) -> bool {
    &&& 0 <= at
    &&& at + phrase.len() <= text.len()
    &&& text.subrange(at, at + phrase.len()) == phrase
}

/// `phrase` stands somewhere in `text`, character for character.
pub open spec fn mentions(text: Seq<char>, phrase: Seq<char>) -> bool {
    exists|at: int| occurs_at(text, phrase, at)
}

/// The bytes of a text of ASCII characters: each character is one byte.
pub open spec fn ascii_bytes(text: Seq<char>) -> Seq<u8> {
    text.map_values(|c: char| c as u8)
}

/// The characters of `text`, one by one.
pub fn chars_of(text: &str) -> (chars: Vec<char>)
    ensures
        chars@ == text@,
{
    let mut chars: Vec<char> = Vec::new();
    for c in it: text.chars()
        invariant
            it.seq() == text@,
            chars@ == text@.take(it.index() as int),
    {
        chars.push(c);
        assert(text@.take(it.index() + 1) == text@.take(it.index() as int).push(c));
    }
    assert(text@.take(text@.len() as int) == text@);
    chars
}

/// Whether `phrase` stands in `text` from place `at` on.
fn matches_at(text: &Vec<char>, phrase: &Vec<char>, at: usize) -> (found: bool)
    requires
        at + phrase@.len() <= text@.len(),
    ensures
        found == occurs_at(text@, phrase@, at as int),
{
    let length = text.len();
    let mut i: usize = 0;
    while i < phrase.len()
        invariant
            at + phrase@.len() <= text@.len() == length,
            i <= phrase@.len(),
            forall|j: int| 0 <= j < i ==> text@[at + j] == phrase@[j],
        decreases phrase.len() - i,
    {
        if text[at + i] != phrase[i] {
            assert(text@.subrange(at as int, at + phrase@.len())[i as int] != phrase@[i as int]);
            return false;
        }
        i += 1;
    }
    assert(text@.subrange(at as int, at + phrase@.len()) =~= phrase@);
    true
}

/// Whether `phrase` stands somewhere in `text`, character for character.
pub fn contains(text: &str, phrase: &str) -> (found: bool)
    ensures
        found == mentions(text@, phrase@),
{
    let letters = chars_of(text);
    let wanted = chars_of(phrase);
    if wanted.len() > letters.len() {
        return false;
    }
    let last = letters.len() - wanted.len();
    let mut at: usize = 0;
    loop
        invariant
            letters@ == text@,
            wanted@ == phrase@,
            last == letters@.len() - wanted@.len(),
            at <= last,
            forall|k: int| 0 <= k < at ==> !occurs_at(letters@, wanted@, k),
        decreases last - at,
    {
        if matches_at(&letters, &wanted, at) {
            assert(occurs_at(text@, phrase@, at as int));
            return true;
        }
        if at == last {
            return false;
        }
        at += 1;
    }
}

} // verus!
