//! Placeholders in a clip's content. `{%0}`, `{%1}`, ... stand for the words
//! of the search text, `{%s}` for the search text as a whole.
//!
//! The words are filled in one after the other, each in the text that the
//! one before left, and the whole search text last.

use crate::text::{
    chars_of, decimal, digit_value, lemma_decimal_digits, lemma_decimal_injective,
    lemma_decimal_round_trip, push_decimal, split_words, string_of, texts, words,
};
use vstd::prelude::*;

verus! {

/// `s` with every occurrence of `from` replaced by `to`. Occurrences are
/// found from left to right and do not overlap; what `to` brings in is not
/// searched again. An empty `from` occurs nowhere.
pub open spec fn replace_all(s: Seq<char>, from: Seq<char>, to: Seq<char>) -> Seq<char>
    decreases s.len(),
{
    if from.len() == 0 || s.len() < from.len() {
        s
    } else if s.take(from.len() as int) == from {
        to + replace_all(s.skip(from.len() as int), from, to)
    } else {
        seq![s[0]] + replace_all(s.drop_first(), from, to)
    }
}

/// The token that stands for word number `i`.
pub open spec fn placeholder(i: nat) -> Seq<char> {
    seq!['{', '%'] + decimal(i) + seq!['}']
}

/// The token that stands for the whole search text.
pub open spec fn query_token() -> Seq<char> {
    seq!['{', '%', 's', '}']
}

/// `content` after the first `n` of `words` have been filled in.
pub open spec fn fill_words(content: Seq<char>, words: Seq<Seq<char>>, n: nat) -> Seq<char>
    decreases n,
{
    if n == 0 {
        content
    } else {
        let i = (n - 1) as nat;
        replace_all(fill_words(content, words, i), placeholder(i), words[i as int])
    }
}

/// `content` with the words of `search_text` filled in, then `search_text`
/// itself.
pub open spec fn expanded(content: Seq<char>, search_text: Seq<char>) -> Seq<char> {
    let w = words(search_text);
    replace_all(fill_words(content, w, w.len()), query_token(), search_text)
}

/// Whether `pattern` stands in `s` at `at`.
fn occurs_at(s: &Vec<char>, at: usize, pattern: &Vec<char>) -> (hit: bool)
    requires
        at <= s.len(),
    ensures
        hit == (pattern.len() <= s.len() - at && s@.skip(at as int).take(pattern.len() as int)
            == pattern@),
{
    let m: usize = pattern.len();
    if m > s.len() - at {
        return false;
    }
    let ghost window = s@.skip(at as int).take(m as int);
    let mut k: usize = 0;
    while k < m
        invariant
            m == pattern.len(),
            at + m <= s.len(),
            k <= m,
            window == s@.skip(at as int).take(m as int),
            forall|j: int| 0 <= j < k ==> window[j] == pattern@[j],
        decreases m - k,
    {
        if s[at + k] != pattern[k] {
            return false;
        }
        k = k + 1;
    }
    assert(window =~= pattern@);
    true
}

/// Replaces every occurrence of `from` in `s` by `to`.
fn replace(s: &Vec<char>, from: &Vec<char>, to: &Vec<char>) -> (out: Vec<char>)
    requires
        from.len() > 0,
    ensures
        out@ == replace_all(s@, from@, to@),
{
    let n: usize = s.len();
    let m: usize = from.len();
    let mut out: Vec<char> = Vec::new();
    let mut i: usize = 0;
    assert(s@.skip(0) =~= s@);
    while i < n
        invariant
            n == s.len(),
            m == from.len(),
            m > 0,
            i <= n,
            out@ + replace_all(s@.skip(i as int), from@, to@) == replace_all(s@, from@, to@),
        decreases n - i,
    {
        let ghost rest = s@.skip(i as int);
        let ghost done = out@;
        if occurs_at(s, i, from) {
            let mut k: usize = 0;
            while k < to.len()
                invariant
                    k <= to.len(),
                    out@ == done + to@.take(k as int),
                decreases to.len() - k,
            {
                out.push(to[k]);
                k = k + 1;
            }
            assert(rest.skip(m as int) =~= s@.skip(i + m));
            i = i + m;
        } else {
            out.push(s[i]);
            assert(rest.drop_first() =~= s@.skip(i + 1));
            i = i + 1;
        }
    }
    out
}

/// The characters of the token for word number `i`.
fn placeholder_token(i: usize) -> (token: Vec<char>)
    ensures
        token@ == placeholder(i as nat),
{
    let mut s = String::new();
    s.push('{');
    s.push('%');
    push_decimal(&mut s, i);
    s.push('}');
    chars_of(s.as_str())
}

/// Expands the placeholders of `content` for the query `search_text`.
///
/// Word number `i` of the search text replaces every `{%i}`, for each `i`
/// in turn from 0; a token whose number no word has stays as it is. Then
/// the search text replaces every `{%s}`.
pub fn expand(content: &str, search_text: &str) -> (out: String)
    ensures
        out@ == expanded(content@, search_text@),
{
    let query = chars_of(search_text);
    let parts = split_words(&query);
    let mut current = chars_of(content);
    let mut i: usize = 0;
    while i < parts.len()
        invariant
            i <= parts.len(),
            query@ == search_text@,
            texts(parts@) == words(search_text@),
            current@ == fill_words(content@, words(search_text@), i as nat),
        decreases parts.len() - i,
    {
        let token = placeholder_token(i);
        current = replace(&current, &token, &parts[i]);
        i = i + 1;
    }
    let mut whole: Vec<char> = Vec::new();
    whole.push('{');
    whole.push('%');
    whole.push('s');
    whole.push('}');
    assert(whole@ =~= query_token());
    let filled = replace(&current, &whole, &query);
    string_of(&filled)
}

/// A text that nowhere holds the first character of `from` holds no
/// occurrence of `from`, and stays as it is.
proof fn lemma_replace_without_first(s: Seq<char>, from: Seq<char>, to: Seq<char>)
    requires
        from.len() > 0,
        !s.contains(from[0]),
    ensures
        replace_all(s, from, to) == s,
    decreases s.len(),
{
    if s.len() >= from.len() {
        let rest = s.drop_first();
        assert(s.contains(s[0]));
        assert(s.take(from.len() as int)[0] == s[0]);
        assert forall|i: int| 0 <= i < rest.len() implies rest[i] != from[0] by {
            assert(s.contains(s[i + 1]));
        }
        lemma_replace_without_first(rest, from, to);
        assert(seq![s[0]] + rest =~= s);
    }
}

/// Content without an opening brace holds no placeholder: expansion leaves
/// it as it is, whatever the search text.
pub proof fn lemma_expand_without_brace(content: Seq<char>, search_text: Seq<char>)
    requires
        !content.contains('{'),
    ensures
        expanded(content, search_text) == content,
{
    let w = words(search_text);
    lemma_fill_without_brace(content, w, w.len());
    lemma_replace_without_first(content, query_token(), search_text);
}

/// Content without an opening brace stays as it is while words are filled
/// in.
proof fn lemma_fill_without_brace(content: Seq<char>, words: Seq<Seq<char>>, n: nat)
    requires
        !content.contains('{'),
    ensures
        fill_words(content, words, n) == content,
    decreases n,
{
    if n > 0 {
        let i = (n - 1) as nat;
        lemma_fill_without_brace(content, words, i);
        lemma_replace_without_first(content, placeholder(i), words[i as int]);
    }
}

/// A text that holds its only opening brace at its start, and does not
/// start with `from`, holds no occurrence of `from`.
proof fn lemma_replace_single_brace(s: Seq<char>, from: Seq<char>, to: Seq<char>)
    requires
        s.len() > 0,
        from.len() > 0,
        from[0] == '{',
        !s.drop_first().contains('{'),
        s.len() < from.len() || s.take(from.len() as int) != from,
    ensures
        replace_all(s, from, to) == s,
{
    if s.len() >= from.len() {
        lemma_replace_without_first(s.drop_first(), from, to);
        assert(seq![s[0]] + s.drop_first() =~= s);
    }
}

/// The token of a word holds one opening brace, at its start, and its
/// closing brace at its end; between them stand a percent sign and digits.
proof fn lemma_placeholder_shape(k: nat)
    ensures
        placeholder(k).len() == decimal(k).len() + 3,
        placeholder(k).len() >= 4,
        placeholder(k)[0] == '{',
        placeholder(k)[1] == '%',
        placeholder(k).last() == '}',
        placeholder(k).subrange(2, placeholder(k).len() - 1) == decimal(k),
        forall|j: int|
            2 <= j < placeholder(k).len() - 1 ==> digit_value(#[trigger] placeholder(k)[j]) is Some,
        !placeholder(k).drop_first().contains('{'),
{
    let s = placeholder(k);
    lemma_decimal_round_trip(k);
    lemma_decimal_digits(k);
    assert(s.subrange(2, s.len() - 1) =~= decimal(k));
    assert forall|j: int| 2 <= j < s.len() - 1 implies digit_value(#[trigger] s[j]) is Some by {
        assert(s[j] == decimal(k)[j - 2]);
    }
    assert forall|j: int| 0 <= j < s.drop_first().len() implies s.drop_first()[j] != '{' by {
        assert(s.drop_first()[j] == s[j + 1]);
        if 2 <= j + 1 < s.len() - 1 {
            assert(digit_value(s[j + 1]) is Some);
        }
    }
}

/// The token of one word does not begin with the token of another.
proof fn lemma_placeholders_apart(k: nat, i: nat)
    requires
        i != k,
    ensures
        placeholder(k).len() < placeholder(i).len() || placeholder(k).take(
            placeholder(i).len() as int,
        ) != placeholder(i),
{
    let s = placeholder(k);
    let from = placeholder(i);
    lemma_placeholder_shape(k);
    lemma_placeholder_shape(i);
    if s.len() >= from.len() && s.take(from.len() as int) == from {
        let m = from.len() as int;
        assert(s.take(m)[m - 1] == s[m - 1]);
        if m < s.len() {
            assert(digit_value(s[m - 1]) is Some);
        } else {
            assert(s.take(m) =~= s);
            lemma_decimal_injective(i, k);
        }
    }
}

/// A token whose number no word of the search text has stays as it is:
/// content that is the token `{%k}` comes out of the expansion unchanged
/// when the search text has `k` words or fewer.
pub proof fn lemma_token_beyond_words_stays(k: nat, search_text: Seq<char>)
    requires
        k >= words(search_text).len(),
    ensures
        expanded(placeholder(k), search_text) == placeholder(k),
{
    let s = placeholder(k);
    let w = words(search_text);
    lemma_token_survives_words(k, w, w.len());
    lemma_placeholder_shape(k);
    if s.take(4) == query_token() {
        assert(s.take(4)[2] == s[2]);
        assert(digit_value(s[2]) is Some);
    }
    lemma_replace_single_brace(s, query_token(), search_text);
}

/// The token `{%k}` stays as it is while the first `n` words are filled
/// in, for `n` up to `k`.
proof fn lemma_token_survives_words(k: nat, words: Seq<Seq<char>>, n: nat)
    requires
        n <= k,
    ensures
        fill_words(placeholder(k), words, n) == placeholder(k),
    decreases n,
{
    if n > 0 {
        let i = (n - 1) as nat;
        lemma_token_survives_words(k, words, i);
        lemma_placeholder_shape(k);
        lemma_placeholder_shape(i);
        lemma_placeholders_apart(k, i);
        lemma_replace_single_brace(placeholder(k), placeholder(i), words[i as int]);
    }
}

} // verus!
