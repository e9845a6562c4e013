//! Text handling: name lists, sender prefixes and line endings.

use vstd::prelude::*;

verus! {

/// A character that separates the names of a name list.
pub open spec fn is_separator(c: char) -> bool {
    c == ' ' || c == '\t' || c == '\n' || c == '\r'
}

/// The character that ends the nickname in a sender prefix.
pub open spec fn is_nick_end(c: char) -> bool {
    c == '!'
}

/// Length of the longest prefix of `s` in which no character satisfies `stop`.
pub open spec fn span_len(s: Seq<char>, stop: spec_fn(char) -> bool) -> nat
    decreases s.len(),
{
    if s.len() == 0 || stop(s[0]) {
        0
    } else {
        1 + span_len(s.drop_first(), stop)
    }
}

/// Length of the first name of `s`, which starts at its first character.
pub open spec fn word_len(s: Seq<char>) -> nat {
    span_len(s, |c: char| is_separator(c))
}

/// The names of a name list: its maximal runs of characters that are not
/// separators, in the order in which they stand.
pub open spec fn words(s: Seq<char>) -> Seq<Seq<char>>
    decreases s.len(),
    via words_decreases
{
    if s.len() == 0 {
        Seq::empty()
    } else if is_separator(s[0]) {
        words(s.drop_first())
    } else {
        seq![s.take(word_len(s) as int)] + words(s.skip(word_len(s) as int))
    }
}

#[via_fn]
proof fn words_decreases(s: Seq<char>) {
    if s.len() > 0 && !is_separator(s[0]) {
        lemma_span_len_bounds(s, |c: char| is_separator(c));
    }
}

/// The nickname of a sender prefix `nick!user@host`: what stands before the
/// first `!`, and the whole prefix where it holds none.
pub open spec fn nick_of(prefix: Seq<char>) -> Seq<char> {
    prefix.take(span_len(prefix, |c: char| is_nick_end(c)) as int)
}

/// `s` without the line feeds at its end.
pub open spec fn trimmed(s: Seq<char>) -> Seq<char>
    decreases s.len(),
{
    if s.len() > 0 && s.last() == '\n' {
        trimmed(s.drop_last())
    } else {
        s
    }
}

/// `s` as a line: without the line feeds at its end, and with one line feed
/// behind it.
pub open spec fn terminated(s: Seq<char>) -> Seq<char> {
    trimmed(s).push('\n')
}

/// Whether a text ends in exactly one line feed: in a line feed that no
/// line feed precedes.
pub open spec fn ends_in_one_line_feed(s: Seq<char>) -> bool {
    s.len() > 0 && s.last() == '\n' && (s.len() == 1 || s[s.len() - 2] != '\n')
}

/// What is left of a text without the line feeds at its end is the
/// beginning of the text, ends in no line feed, and is followed by line
/// feeds only.
pub proof fn lemma_trimmed(s: Seq<char>)
    ensures
        trimmed(s).len() <= s.len(),
        trimmed(s) == s.take(trimmed(s).len() as int),
        trimmed(s).len() == 0 || trimmed(s).last() != '\n',
        forall|k: int| trimmed(s).len() <= k < s.len() ==> s[k] == '\n',
    decreases s.len(),
{
    if s.len() > 0 && s.last() == '\n' {
        let rest = s.drop_last();
        lemma_trimmed(rest);
        assert(rest.take(trimmed(rest).len() as int) == s.take(trimmed(rest).len() as int));
        assert forall|k: int| trimmed(s).len() <= k < s.len() implies s[k] == '\n' by {
            if k < rest.len() {
                assert(rest[k] == s[k]);
            }
        }
    } else {
        assert(s.take(s.len() as int) == s);
    }
}

/// A text made into a line ends in exactly one line feed, and so does what
/// it is appended to, unless the line is blank and what stands before it
/// ends in a line feed. A text that ends in no line feed is kept whole.
pub proof fn lemma_terminated(before: Seq<char>, s: Seq<char>)
    ensures
        ends_in_one_line_feed(terminated(s)),
        trimmed(s).len() > 0 ==> ends_in_one_line_feed(before + terminated(s)),
        before.len() == 0 || before.last() != '\n' ==> ends_in_one_line_feed(
            before + terminated(s),
        ),
        terminated(terminated(s)) == terminated(s),
        s.len() == 0 || s.last() != '\n' ==> terminated(s) == s.push('\n'),
{
    lemma_trimmed(s);
    let line = terminated(s);
    let whole = before + line;
    if trimmed(s).len() > 0 {
        assert(whole[whole.len() - 2] == trimmed(s).last());
    } else if before.len() > 0 {
        assert(whole[whole.len() - 2] == before.last());
    }
    assert(line.drop_last() == trimmed(s));
    assert(trimmed(line) == trimmed(trimmed(s)));
    assert(trimmed(trimmed(s)) == trimmed(s));
}

/// A span never runs past the end of the text.
pub proof fn lemma_span_len_bounds(s: Seq<char>, stop: spec_fn(char) -> bool)
    ensures
        span_len(s, stop) <= s.len(),
        s.len() > 0 && !stop(s[0]) ==> span_len(s, stop) >= 1,
    decreases s.len(),
{
    if s.len() > 0 && !stop(s[0]) {
        lemma_span_len_bounds(s.drop_first(), stop);
    }
}

/// A span is the stretch up to the first stopping character.
pub proof fn lemma_span_len_is(s: Seq<char>, stop: spec_fn(char) -> bool, n: int)
    requires
        0 <= n <= s.len(),
        forall|k: int| 0 <= k < n ==> !stop(#[trigger] s[k]),
        n == s.len() || stop(s[n]),
    ensures
        span_len(s, stop) == n,
    decreases s.len(),
{
    if n > 0 {
        let rest = s.drop_first();
        lemma_span_len_is(rest, stop, n - 1);
    }
}

/// No character of a span stops it.
pub proof fn lemma_span_len_free(s: Seq<char>, stop: spec_fn(char) -> bool)
    ensures
        forall|k: int| 0 <= k < span_len(s, stop) ==> !stop(#[trigger] s[k]),
    decreases s.len(),
{
    if s.len() > 0 && !stop(s[0]) {
        let rest = s.drop_first();
        lemma_span_len_free(rest, stop);
        lemma_span_len_bounds(s, stop);
        assert forall|k: int| 0 <= k < span_len(s, stop) implies !stop(#[trigger] s[k]) by {
            if k > 0 {
                assert(s[k] == rest[k - 1]);
            }
        }
    }
}

/// A name is a text that is not empty and holds no separator.
pub open spec fn is_name(s: Seq<char>) -> bool {
    s.len() > 0 && forall|k: int| 0 <= k < s.len() ==> !is_separator(#[trigger] s[k])
}

/// Every one of the names of a name list is a name.
pub proof fn lemma_words_are_names(s: Seq<char>)
    ensures
        forall|i: int| 0 <= i < words(s).len() ==> is_name(#[trigger] words(s)[i]),
    decreases s.len(),
{
    if s.len() > 0 && is_separator(s[0]) {
        lemma_words_are_names(s.drop_first());
        assert(words(s) == words(s.drop_first()));
    } else if s.len() > 0 {
        let stop = |c: char| is_separator(c);
        let n = word_len(s) as int;
        lemma_span_len_bounds(s, stop);
        lemma_span_len_free(s, stop);
        lemma_words_are_names(s.skip(n));
        assert forall|i: int| 0 <= i < words(s).len() implies is_name(#[trigger] words(s)[i]) by {
            if i > 0 {
                assert(words(s)[i] == words(s.skip(n))[i - 1]);
            }
        }
    }
}

/// A name is the one name of the name list that it makes up alone.
pub proof fn lemma_words_of_name(s: Seq<char>)
    requires
        is_name(s),
    ensures
        words(s) == seq![s],
{
    let stop = |c: char| is_separator(c);
    lemma_span_len_is(s, stop, s.len() as int);
    assert(s.take(s.len() as int) == s);
    assert(words(s) == seq![s.take(word_len(s) as int)] + words(s.skip(word_len(s) as int)));
}

/// The characters of `text`, one by one.
pub fn chars_of(text: &str) -> (chars: Vec<char>)
    ensures
        chars@ == text@,
{
    let mut chars: Vec<char> = Vec::new();
    for c in it: text.chars()
        invariant
            it.seq() == text@,
            chars@ == it.seq().take(it.index() as int),
    {
        chars.push(c);
    }
    chars
}

fn separates(c: char) -> (b: bool)
    ensures
        b == is_separator(c),
{
    c == ' ' || c == '\t' || c == '\n' || c == '\r'
}

/// Splits a name list into its names.
pub fn split_names(text: &str) -> (names: Vec<String>)
    ensures
        names.deep_view() == words(text@),
{
    let chars = chars_of(text);
    let n = chars.len();
    let mut names: Vec<String> = Vec::new();
    let mut i: usize = 0;
    assert(text@.skip(0) == text@);
    while i < n
        invariant
            i <= n,
            n == chars.len(),
            chars@ == text@,
            names.deep_view() + words(text@.skip(i as int)) == words(text@),
        decreases n - i,
    {
        let ghost rest = text@.skip(i as int);
        if separates(chars[i]) {
            assert(rest.drop_first() == text@.skip(i + 1));
            i = i + 1;
        } else {
            let start = i;
            while i < n && !separates(chars[i])
                invariant
                    start <= i <= n,
                    n == chars.len(),
                    forall|k: int| start <= k < i ==> !is_separator(#[trigger] chars[k]),
                decreases n - i,
            {
                i = i + 1;
            }
            let name = text.substring_char(start, i).to_owned();
            proof {
                let stop = |c: char| is_separator(c);
                lemma_span_len_is(rest, stop, i - start);
                assert(rest.take(i - start) == text@.subrange(start as int, i as int));
                assert(rest.skip(i - start) == text@.skip(i as int));
            }
            names.push(name);
        }
    }
    names
}

/// The nickname of a sender prefix.
pub fn short_name(prefix: &str) -> (nick: String)
    ensures
        nick@ == nick_of(prefix@),
{
    let chars = chars_of(prefix);
    let n = chars.len();
    let mut i: usize = 0;
    while i < n && chars[i] != '!'
        invariant
            i <= n,
            n == chars.len(),
            forall|k: int| 0 <= k < i ==> !is_nick_end(#[trigger] chars[k]),
        decreases n - i,
    {
        i = i + 1;
    }
    proof {
        lemma_span_len_is(prefix@, |c: char| is_nick_end(c), i as int);
    }
    prefix.substring_char(0, i).to_owned()
}

/// The text without the line feeds at its end.
pub fn trim_line_feeds(text: &str) -> (body: String)
    ensures
        body@ == trimmed(text@),
{
    let chars = chars_of(text);
    let mut end: usize = chars.len();
    assert(text@.take(end as int) == text@);
    while end > 0 && chars[end - 1] == '\n'
        invariant
            end <= chars.len(),
            chars@ == text@,
            trimmed(text@) == trimmed(text@.take(end as int)),
        decreases end,
    {
        assert(text@.take(end as int).drop_last() == text@.take(end - 1));
        end = end - 1;
    }
    text.substring_char(0, end).to_owned()
}

} // verus!
