//! The value of an `Authorization` header: the scheme `Bearer`, then a token.

use vstd::prelude::*;
use crate::text::{chars_of, same_text};

verus! {

/// The scheme that a credential must name.
pub open spec fn bearer_scheme() -> Seq<char> {
    "Bearer"@
}

/// The characters with the Unicode property `White_Space`.
pub open spec fn is_space(c: char) -> bool {
    let n: u32 = c as u32;
    ||| 0x09 <= n <= 0x0D
    ||| n == 0x20
    ||| n == 0x85
    ||| n == 0xA0
    ||| n == 0x1680
    ||| 0x2000 <= n <= 0x200A
    ||| n == 0x2028
    ||| n == 0x2029
    ||| n == 0x202F
    ||| n == 0x205F
    ||| n == 0x3000
}

/// The first position at or after `from` that holds no whitespace: where the
/// next word starts, or the end of the text.
pub open spec fn word_start(s: Seq<char>, from: int) -> int
    decreases s.len() - from,
{
    if 0 <= from < s.len() && is_space(s[from]) {
        word_start(s, from + 1)
    } else {
        from
    }
}

/// The first position at or after `from` that holds whitespace: where a word
/// that starts at `from` ends, or the end of the text.
pub open spec fn word_end(s: Seq<char>, from: int) -> int
    decreases s.len() - from,
{
    if 0 <= from < s.len() && !is_space(s[from]) {
        word_end(s, from + 1)
    } else {
        from
    }
}

/// The words of `s` from position `from` on, in order. A word is a longest
/// run of characters that holds no whitespace.
pub open spec fn words_from(s: Seq<char>, from: int) -> Seq<Seq<char>>
    decreases s.len() - from,
{
    let start: int = word_start(s, from);
    let end: int = word_end(s, start);
    if 0 <= from <= start < end <= s.len() {
        seq![s.subrange(start, end)] + words_from(s, end)
    } else {
        Seq::empty()
    }
}

/// The words of `s`.
pub open spec fn words(s: Seq<char>) -> Seq<Seq<char>> {
    words_from(s, 0)
}

/// The token that a header value presents: the value is two words, and the
/// first is `Bearer`, letter for letter.
pub open spec fn bearer_credential(value: Seq<char>) -> Option<Seq<char>> {
    let w = words(value);
    if w.len() == 2 && w[0] == bearer_scheme() {
        Some(w[1])
    } else {
        None
    }
}

/// Whether `c` is whitespace.
pub fn is_space_char(c: char) -> (r: bool)
    ensures
        r == is_space(c),
{
    let n: u32 = c as u32;
    (0x09 <= n && n <= 0x0D) || n == 0x20 || n == 0x85 || n == 0xA0 || n == 0x1680 || (0x2000 <= n
        && n <= 0x200A) || n == 0x2028 || n == 0x2029 || n == 0x202F || n == 0x205F || n == 0x3000
}

/// Where the next word starts, from `from` on.
fn skip_spaces(cs: &Vec<char>, from: usize) -> (i: usize)
    requires
        from <= cs.len(),
    ensures
        i == word_start(cs@, from as int),
        from <= i <= cs.len(),
        i < cs.len() ==> !is_space(cs@[i as int]),
{
    let mut i: usize = from;
    while i < cs.len() && is_space_char(cs[i])
        invariant
            from <= i <= cs.len(),
            word_start(cs@, from as int) == word_start(cs@, i as int),
        decreases cs.len() - i,
    {
        i = i + 1;
    }
    i
}

/// Where a word that starts at `from` ends.
fn skip_word(cs: &Vec<char>, from: usize) -> (i: usize)
    requires
        from <= cs.len(),
    ensures
        i == word_end(cs@, from as int),
        from <= i <= cs.len(),
        from < cs.len() && !is_space(cs@[from as int]) ==> from < i,
{
    let mut i: usize = from;
    while i < cs.len() && !is_space_char(cs[i])
        invariant
            from <= i <= cs.len(),
            word_end(cs@, from as int) == word_end(cs@, i as int),
            from < cs.len() && !is_space(cs@[from as int]) && i == from ==> i < cs.len(),
        decreases cs.len() - i,
    {
        i = i + 1;
    }
    i
}

/// The token that a header value presents, if it presents one.
pub fn bearer_token<'a>(value: &'a str) -> (r: Option<&'a str>)
    ensures
        match r {
            Some(token) => bearer_credential(value@) == Some(token@),
            None => bearer_credential(value@) is None,
        },
{
    let cs = chars_of(value);
    let ghost s = value@;
    let a1: usize = skip_spaces(&cs, 0);
    let b1: usize = skip_word(&cs, a1);
    if a1 == b1 {
        return None;
    }
    let a2: usize = skip_spaces(&cs, b1);
    let b2: usize = skip_word(&cs, a2);
    if a2 == b2 {
        assert(words_from(s, b1 as int).len() == 0);
        return None;
    }
    let a3: usize = skip_spaces(&cs, b2);
    let b3: usize = skip_word(&cs, a3);
    assert(words_from(s, b1 as int) == seq![s.subrange(a2 as int, b2 as int)] + words_from(
        s,
        b2 as int,
    ));
    if a3 != b3 {
        return None;
    }
    let scheme = value.substring_char(a1, b1);
    if !same_text(scheme, "Bearer") {
        return None;
    }
    Some(value.substring_char(a2, b2))
}

/// `word_start` skips whitespace and nothing else.
pub proof fn lemma_word_start(s: Seq<char>, from: int)
    requires
        0 <= from <= s.len(),
    ensures
        from <= word_start(s, from) <= s.len(),
        forall|k: int| from <= k < word_start(s, from) ==> is_space(s[k]),
        word_start(s, from) < s.len() ==> !is_space(s[word_start(s, from)]),
    decreases s.len() - from,
{
    if from < s.len() && is_space(s[from]) {
        lemma_word_start(s, from + 1);
    }
}

/// `word_end` skips what is no whitespace and nothing else.
pub proof fn lemma_word_end(s: Seq<char>, from: int)
    requires
        0 <= from <= s.len(),
    ensures
        from <= word_end(s, from) <= s.len(),
        forall|k: int| from <= k < word_end(s, from) ==> !is_space(s[k]),
        word_end(s, from) < s.len() ==> is_space(s[word_end(s, from)]),
    decreases s.len() - from,
{
    if from < s.len() && !is_space(s[from]) {
        lemma_word_end(s, from + 1);
    }
}

/// A run of whitespace that ends at `to` is skipped up to `to`.
proof fn lemma_word_starts_at(s: Seq<char>, from: int, to: int)
    requires
        0 <= from <= to <= s.len(),
        forall|k: int| from <= k < to ==> is_space(s[k]),
        to < s.len() ==> !is_space(s[to]),
    ensures
        word_start(s, from) == to,
    decreases to - from,
{
    if from < to {
        lemma_word_starts_at(s, from + 1, to);
    }
}

/// A run without whitespace that ends at `to` is a word that ends at `to`.
proof fn lemma_word_ends_at(s: Seq<char>, from: int, to: int)
    requires
        0 <= from <= to <= s.len(),
        forall|k: int| from <= k < to ==> !is_space(s[k]),
        to < s.len() ==> is_space(s[to]),
    ensures
        word_end(s, from) == to,
    decreases to - from,
{
    if from < to {
        lemma_word_ends_at(s, from + 1, to);
    }
}

/// Every word is non-empty and holds no whitespace.
pub proof fn law_words_hold_no_space(s: Seq<char>, from: int)
    requires
        0 <= from <= s.len(),
    ensures
        forall|i: int, k: int|
            0 <= i < words_from(s, from).len() && 0 <= k < words_from(s, from)[i].len()
                ==> !is_space(#[trigger] words_from(s, from)[i][k]),
        forall|i: int| 0 <= i < words_from(s, from).len() ==> (#[trigger] words_from(s, from)[i]).len() > 0,
    decreases s.len() - from,
{
    let start: int = word_start(s, from);
    lemma_word_start(s, from);
    let end: int = word_end(s, start);
    lemma_word_end(s, start);
    if start < end {
        law_words_hold_no_space(s, end);
        let first = s.subrange(start, end);
        let rest = words_from(s, end);
        assert(words_from(s, from) == seq![first] + rest);
        assert forall|i: int, k: int|
            0 <= i < words_from(s, from).len() && 0 <= k < words_from(s, from)[i].len()
            implies !is_space(#[trigger] words_from(s, from)[i][k]) by {
            if i == 0 {
                assert(first[k] == s[start + k]);
            } else {
                assert(words_from(s, from)[i] == rest[i - 1]);
            }
        }
        assert forall|i: int| 0 <= i < words_from(s, from).len() implies (#[trigger] words_from(
            s,
            from,
        )[i]).len() > 0 by {
            if i > 0 {
                assert(words_from(s, from)[i] == rest[i - 1]);
            }
        }
    }
}

/// A token that a header value presents is a word: it is not empty and
/// holds no whitespace.
pub proof fn law_presented_token_is_a_word(value: Seq<char>, token: Seq<char>)
    requires
        bearer_credential(value) == Some(token),
    ensures
        token.len() > 0,
        forall|k: int| 0 <= k < token.len() ==> !is_space(token[k]),
{
    law_words_hold_no_space(value, 0);
}

/// The value `Bearer`, one space, and a token that is a word presents that
/// token.
pub proof fn law_bearer_header_presents_its_token(token: Seq<char>)
    requires
        token.len() > 0,
        forall|k: int| 0 <= k < token.len() ==> !is_space(token[k]),
    ensures
        bearer_credential(bearer_scheme() + seq![' '] + token) == Some(token),
{
    reveal_strlit("Bearer");
    let scheme = bearer_scheme();
    let value = scheme + seq![' '] + token;
    let len: int = value.len() as int;
    lemma_word_starts_at(value, 0, 0);
    lemma_word_ends_at(value, 0, 6);
    lemma_word_starts_at(value, 6, 7);
    lemma_word_ends_at(value, 7, len);
    lemma_word_starts_at(value, len, len);
    assert(value.subrange(0, 6) =~= scheme);
    assert(value.subrange(7, len) =~= token);
    assert(words_from(value, len).len() == 0);
    assert(words_from(value, 6) =~= seq![token]);
}

} // verus!
