//! The click command: a configured command string is split on whitespace into
//! the program and its arguments, with no shell interpretation.

use vstd::prelude::*;

verus! {

/// Whether a character separates command words.
pub open spec fn is_space(c: char) -> bool {
    c == ' ' || c == '\t' || c == '\n' || c == '\r' || c == '\u{0b}' || c == '\u{0c}'
}

/// The length of the word starting at position `i`: the number of characters
/// before the next separator or the end.
pub open spec fn spec_word_len_from(s: Seq<char>, i: int) -> nat
    decreases s.len() - i,
{
    if i < 0 || i >= s.len() || is_space(s[i]) {
        0
    } else {
        1 + spec_word_len_from(s, i + 1)
    }
}

/// A word starting at a non-separator has at least one character and ends at
/// or before the end of the string.
pub proof fn lemma_word_len_from_bounds(s: Seq<char>, i: int)
    requires
        0 <= i < s.len(),
        !is_space(s[i]),
    ensures
        1 <= spec_word_len_from(s, i),
        i + spec_word_len_from(s, i) <= s.len(),
    decreases s.len() - i,
{
    if i + 1 < s.len() && !is_space(s[i + 1]) {
        lemma_word_len_from_bounds(s, i + 1);
    } else {
        assert(spec_word_len_from(s, i + 1) == 0);
    }
}

/// The words of the string from position `i` on, in order: the maximal runs
/// of non-separator characters.
pub open spec fn spec_words_from(s: Seq<char>, i: int) -> Seq<Seq<char>>
    decreases s.len() - i,
        via spec_words_from_decreases
{
    if i < 0 || i >= s.len() {
        Seq::empty()
    } else if is_space(s[i]) {
        spec_words_from(s, i + 1)
    } else {
        let k = spec_word_len_from(s, i) as int;
        seq![s.subrange(i, i + k)] + spec_words_from(s, i + k)
    }
}

#[via_fn]
proof fn spec_words_from_decreases(s: Seq<char>, i: int) {
    if 0 <= i < s.len() && !is_space(s[i]) {
        lemma_word_len_from_bounds(s, i);
    }
}

/// The whitespace-separated words of a command string, in order.
pub open spec fn spec_words(s: Seq<char>) -> Seq<Seq<char>> {
    spec_words_from(s, 0)
}

/// Whether this character separates command words.
fn is_space_char(c: char) -> (b: bool)
    ensures
        b == is_space(c),
{
    c == ' ' || c == '\t' || c == '\n' || c == '\r' || c == '\u{0b}' || c == '\u{0c}'
}

fn word_len_at(s: &str, i: usize) -> (k: usize)
    requires
        i <= s@.len(),
    ensures
        k == spec_word_len_from(s@, i as int),
        i + k <= s@.len(),
    decreases s@.len() - i,
{
    if i >= s.unicode_len() {
        0
    } else if is_space_char(s.get_char(i)) {
        0
    } else {
        1 + word_len_at(s, i + 1)
    }
}

fn split_from(s: &str, i: usize) -> (r: Vec<String>)
    requires
        i <= s@.len(),
    ensures
        r@.map_values(|t: String| t@) =~= spec_words_from(s@, i as int),
    decreases s@.len() - i,
{
    if i >= s.unicode_len() {
        Vec::new()
    } else if is_space_char(s.get_char(i)) {
        split_from(s, i + 1)
    } else {
        let k = word_len_at(s, i);
        proof {
            lemma_word_len_from_bounds(s@, i as int);
        }
        let word = String::from_str(s.substring_char(i, i + k));
        let mut rest = split_from(s, i + k);
        let mut r: Vec<String> = Vec::new();
        r.push(word);
        r.append(&mut rest);
        proof {
            assert(r@.map_values(|t: String| t@) =~= spec_words_from(s@, i as int));
        }
        r
    }
}

/// Splits a configured command string on whitespace into the program and its
/// arguments, in order.
pub fn split_command(cmd: &str) -> (r: Vec<String>)
    ensures
        r@.map_values(|t: String| t@) =~= spec_words(cmd@),
{
    split_from(cmd, 0)
}

} // verus!
