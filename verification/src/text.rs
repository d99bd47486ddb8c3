//! Substring search and removal on character sequences.
//!
//! Identifiers and rendered values are compared as text: a filter keeps or drops
//! a row by whether a literal occurs in it, and a key is what is left of an
//! identifier once every occurrence of a literal has been taken out.

use vstd::prelude::*;

verus! {

/// `pattern` occurs in `text` starting at position `at`.
pub open spec fn occurs_at(text: Seq<char>, pattern: Seq<char>, at: int) -> bool {
    &&& 0 <= at
    &&& at + pattern.len() <= text.len()
    &&& text.subrange(at, at + pattern.len()) == pattern
}

/// `pattern` occurs somewhere in `text`. The empty pattern occurs in every text.
pub open spec fn occurs_in(text: Seq<char>, pattern: Seq<char>) -> bool {
    exists|at: int| occurs_at(text, pattern, at)
}

/// `text` with every occurrence of `pattern` taken out, scanning from the left:
/// where the pattern occurs at the front it is dropped and the scan goes on
/// behind it, otherwise one character is kept. Occurrences do not overlap, and
/// what the removal brings together is not scanned again. The empty pattern
/// removes nothing.
pub open spec fn without(text: Seq<char>, pattern: Seq<char>) -> Seq<char>
    decreases text.len(),
{
    if pattern.len() == 0 || text.len() < pattern.len() {
        text
    } else if occurs_at(text, pattern, 0) {
        without(text.skip(pattern.len() as int), pattern)
    } else {
        seq![text[0]] + without(text.skip(1), pattern)
    }
}

/// A text in which the pattern does not occur is left as it is.
pub proof fn lemma_without_absent(text: Seq<char>, pattern: Seq<char>)
    requires
        !occurs_in(text, pattern),
    ensures
        without(text, pattern) == text,
    decreases text.len(),
{
    if pattern.len() == 0 || text.len() < pattern.len() {
    } else {
        assert(!occurs_at(text, pattern, 0));
        let rest = text.skip(1);
        assert forall|at: int| !occurs_at(rest, pattern, at) by {
            if occurs_at(rest, pattern, at) {
                assert(text.subrange(at + 1, at + 1 + pattern.len()) =~= rest.subrange(
                    at,
                    at + pattern.len(),
                ));
                assert(occurs_at(text, pattern, at + 1));
            }
        }
        lemma_without_absent(rest, pattern);
        assert(seq![text[0]] + rest =~= text);
    }
}

/// A text that starts with the pattern, and holds it nowhere behind that start,
/// is left with what follows the pattern.
pub proof fn lemma_without_prefix(pattern: Seq<char>, rest: Seq<char>)
    requires
        pattern.len() > 0,
        !occurs_in(rest, pattern),
    ensures
        without(pattern + rest, pattern) == rest,
{
    let text = pattern + rest;
    assert(text.subrange(0, pattern.len() as int) =~= pattern);
    assert(occurs_at(text, pattern, 0));
    assert(text.skip(pattern.len() as int) =~= rest);
    lemma_without_absent(rest, pattern);
}

/// The characters of `s`, in order.
pub fn chars_of(s: &str) -> (chars: Vec<char>)
    ensures
        chars@ == s@,
{
    let mut chars: Vec<char> = Vec::new();
    for c in it: s.chars()
        invariant
            it.seq() == s@,
            chars@ == it.seq().take(it.index()),
    {
        chars.push(c);
    }
    chars
}

/// `std`'s `String::push` puts the character behind the last one of the string
/// and changes nothing else.
pub assume_specification[ String::push ](s: &mut String, c: char)
    ensures
        final(s)@ == old(s)@.push(c),
;

/// The string made of `chars`, in order.
pub fn string_of(chars: &Vec<char>) -> (s: String)
    ensures
        s@ == chars@,
{
    let mut s = String::new();
    let mut i: usize = 0;
    while i < chars.len()
        invariant
            i <= chars.len(),
            s@ == chars@.take(i as int),
        decreases chars.len() - i,
    {
        s.push(chars[i]);
        i += 1;
        assert(chars@.take(i as int) =~= chars@.take(i - 1).push(chars@[i - 1]));
    }
    assert(chars@.take(chars.len() as int) =~= chars@);
    s
}

/// Whether `pattern` occurs in `text` at position `at`.
pub fn matches_at(text: &Vec<char>, pattern: &Vec<char>, at: usize) -> (found: bool)
    ensures
        found == occurs_at(text@, pattern@, at as int),
{
    let n = text.len();
    let m = pattern.len();
    if m > n || at > n - m {
        return false;
    }
    let mut k: usize = 0;
    while k < m
        invariant
            n == text.len(),
            m == pattern.len(),
            m <= n,
            at <= n - m,
            k <= m,
            forall|j: int| 0 <= j < k ==> text@[at + j] == pattern@[j],
        decreases m - k,
    {
        if text[at + k] != pattern[k] {
            assert(text@.subrange(at as int, at + m)[k as int] != pattern@[k as int]);
            return false;
        }
        k += 1;
    }
    assert(text@.subrange(at as int, at + m) =~= pattern@);
    true
}

/// Whether `pattern` occurs anywhere in `text`.
pub fn contains_chars(text: &Vec<char>, pattern: &Vec<char>) -> (found: bool)
    ensures
        found == occurs_in(text@, pattern@),
{
    let n = text.len();
    let m = pattern.len();
    if m == 0 {
        assert(text@.subrange(0, 0) =~= pattern@);
        assert(occurs_at(text@, pattern@, 0));
        return true;
    }
    if m > n {
        return false;
    }
    let mut at: usize = 0;
    while at <= n - m
        invariant
            n == text.len(),
            m == pattern.len(),
            0 < m <= n,
            at <= n - m + 1,
            forall|k: int| 0 <= k < at ==> !occurs_at(text@, pattern@, k),
        decreases n - m + 1 - at,
    {
        if matches_at(text, pattern, at) {
            return true;
        }
        at += 1;
    }
    false
}

/// `text` without the occurrences of `pattern`.
pub fn remove_all_chars(text: &Vec<char>, pattern: &Vec<char>) -> (kept: Vec<char>)
    ensures
        kept@ == without(text@, pattern@),
{
    let n = text.len();
    let m = pattern.len();
    let mut kept: Vec<char> = Vec::new();
    let mut i: usize = 0;
    assert(text@.skip(0) =~= text@);
    assert(kept@ + without(text@, pattern@) =~= without(text@, pattern@));
    while i < n
        invariant
            n == text.len(),
            m == pattern.len(),
            i <= n,
            without(text@, pattern@) == kept@ + without(text@.skip(i as int), pattern@),
        decreases n - i,
    {
        let ghost tail = text@.skip(i as int);
        let found = m > 0 && matches_at(text, pattern, i);
        proof {
            assert(tail.len() == n - i);
            if m > 0 && m <= tail.len() {
                assert(tail.subrange(0, m as int) =~= text@.subrange(i as int, i + m));
            }
            assert(found == (m > 0 && occurs_at(tail, pattern@, 0)));
        }
        if found {
            proof {
                assert(tail.skip(m as int) =~= text@.skip(i + m));
            }
            i += m;
        } else {
            proof {
                assert(tail.skip(1) =~= text@.skip(i + 1));
                assert(tail[0] == text@[i as int]);
                lemma_without_step(tail, pattern@);
                assert(kept@.push(text@[i as int]) + without(tail.skip(1), pattern@) =~= kept@ + (
                seq![tail[0]] + without(tail.skip(1), pattern@)));
            }
            kept.push(text[i]);
            i += 1;
        }
    }
    assert(text@.skip(n as int).len() == 0);
    assert(kept@ + text@.skip(n as int) =~= kept@);
    kept
}

/// Where the pattern does not occur at the front of a text that is not empty,
/// the first character is kept and the removal goes on behind it.
proof fn lemma_without_step(text: Seq<char>, pattern: Seq<char>)
    requires
        text.len() > 0,
        pattern.len() == 0 || !occurs_at(text, pattern, 0),
    ensures
        without(text, pattern) == seq![text[0]] + without(text.skip(1), pattern),
{
    if pattern.len() == 0 || text.len() < pattern.len() {
        assert(without(text.skip(1), pattern) == text.skip(1));
        assert(seq![text[0]] + text.skip(1) =~= text);
    }
}

/// Whether `pattern` occurs anywhere in `text`.
pub fn contains(text: &str, pattern: &str) -> (found: bool)
    ensures
        found == occurs_in(text@, pattern@),
{
    let text_chars = chars_of(text);
    let pattern_chars = chars_of(pattern);
    contains_chars(&text_chars, &pattern_chars)
}

/// `text` without the occurrences of `pattern`.
pub fn remove_all(text: &str, pattern: &str) -> (kept: String)
    ensures
        kept@ == without(text@, pattern@),
{
    let text_chars = chars_of(text);
    let pattern_chars = chars_of(pattern);
    let kept = remove_all_chars(&text_chars, &pattern_chars);
    string_of(&kept)
}

} // verus!
