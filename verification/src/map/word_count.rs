use vstd::prelude::*;

use crate::text::push_char;

verus! {

/// A map function: turns one input into key/value pairs.
pub trait Mapper {
    type Input;
    type Key;
    type Value;

    /// The inputs on which `map` is defined.
    spec fn accepts(&self, input: &Self::Input) -> bool;

    fn map(&self, input: Self::Input) -> Vec<(Self::Key, Self::Value)>
        requires
            self.accepts(&input),
    ;
}

/// The map function that counts the words of a line.
pub struct WordCountMapper;

/// Whether `c` is white space, as Unicode's `White_Space` property (and so
/// `char::is_whitespace`) has it.
pub open spec fn is_white_space(c: char) -> bool {
    let v = c as u32;
    ||| 0x09 <= v <= 0x0d
    ||| v == 0x20
    ||| v == 0x85
    ||| v == 0xa0
    ||| v == 0x1680
    ||| 0x2000 <= v <= 0x200a
    ||| v == 0x2028
    ||| v == 0x2029
    ||| v == 0x202f
    ||| v == 0x205f
    ||| v == 0x3000
}

/// The code points of Unicode's `White_Space` property, as listed in the
/// Unicode Character Database (`PropList.txt`): the characters for which
/// `char::is_whitespace` holds.
pub open spec fn white_space_code_points() -> Seq<u32> {
    seq![
        0x09u32, 0x0a, 0x0b, 0x0c, 0x0d, 0x20, 0x85, 0xa0, 0x1680,
        0x2000, 0x2001, 0x2002, 0x2003, 0x2004, 0x2005, 0x2006, 0x2007, 0x2008, 0x2009, 0x200a,
        0x2028, 0x2029, 0x202f, 0x205f, 0x3000,
    ]
}

/// A character is white space exactly when its code point is one of the
/// twenty-five of Unicode's `White_Space` property.
pub proof fn lemma_white_space_is_unicode_white_space(c: char)
    ensures
        is_white_space(c) <==> white_space_code_points().contains(c as u32),
        white_space_code_points().len() == 25,
{
    let points = white_space_code_points();
    let v = c as u32;
    if is_white_space(c) {
        if 0x09 <= v <= 0x0d {
            assert(points[(v - 0x09) as int] == v);
        } else if 0x2000 <= v <= 0x200a {
            assert(points[(v - 0x2000 + 9) as int] == v);
        } else if v == 0x20 {
            assert(points[5] == v);
        } else if v == 0x85 {
            assert(points[6] == v);
        } else if v == 0xa0 {
            assert(points[7] == v);
        } else if v == 0x1680 {
            assert(points[8] == v);
        } else if v == 0x2028 {
            assert(points[20] == v);
        } else if v == 0x2029 {
            assert(points[21] == v);
        } else if v == 0x202f {
            assert(points[22] == v);
        } else if v == 0x205f {
            assert(points[23] == v);
        } else {
            assert(points[24] == v);
        }
    }
    if points.contains(v) {
        let i = choose|i: int| 0 <= i < points.len() && points[i] == v;
        assert(0 <= i < 25);
    }
}

/// No letter of the Latin, Greek, Cyrillic, Hebrew, Arabic or CJK scripts
/// is white space: white space is never inside U+0021..U+0084,
/// U+00A1..U+167F or U+3001..U+10FFFF.
pub proof fn lemma_letters_are_not_white_space(c: char)
    requires
        (0x21 <= (c as u32) <= 0x84) || (0xa1 <= (c as u32) <= 0x167f) || 0x3001 <= (c as u32),
    ensures
        !is_white_space(c),
{
}

/// A text with no white space in it, and not empty, is one word.
pub proof fn lemma_text_without_white_space_is_one_word(text: Seq<char>)
    requires
        text.len() > 0,
        forall|i: int| 0 <= i < text.len() ==> !is_white_space(#[trigger] text[i]),
    ensures
        words(text) == seq![text],
{
    lemma_scan_without_white_space(text);
}

proof fn lemma_scan_without_white_space(text: Seq<char>)
    requires
        forall|i: int| 0 <= i < text.len() ==> !is_white_space(#[trigger] text[i]),
    ensures
        scan_words(text).0.len() == 0,
        scan_words(text).1 == text,
    decreases text.len(),
{
    if text.len() > 0 {
        let shorter = text.drop_last();
        assert forall|i: int| 0 <= i < shorter.len() implies !is_white_space(#[trigger] shorter[i]) by {
            assert(shorter[i] == text[i]);
        }
        lemma_scan_without_white_space(shorter);
        assert(!is_white_space(text[text.len() - 1]));
        assert(shorter.push(text.last()) =~= text);
    }
}

/// Reading `text` from left to right: the words completed so far, and the
/// characters of the word being read (empty between words).
pub open spec fn scan_words(text: Seq<char>) -> (Seq<Seq<char>>, Seq<char>)
    decreases text.len(),
{
    if text.len() == 0 {
        (Seq::empty(), Seq::empty())
    } else {
        let (done, current) = scan_words(text.drop_last());
        let c = text.last();
        if is_white_space(c) {
            if current.len() > 0 {
                (done.push(current), Seq::empty())
            } else {
                (done, Seq::empty())
            }
        } else {
            (done, current.push(c))
        }
    }
}

/// The words of `text`: its maximal runs of characters that are not white
/// space, in order, as `str::split_whitespace` yields them.
pub open spec fn words(text: Seq<char>) -> Seq<Seq<char>> {
    let (done, current) = scan_words(text);
    if current.len() > 0 {
        done.push(current)
    } else {
        done
    }
}

/// How often `word` occurs in `ws`.
pub open spec fn occurrences(ws: Seq<Seq<char>>, word: Seq<char>) -> nat
    decreases ws.len(),
{
    if ws.len() == 0 {
        0
    } else {
        occurrences(ws.drop_last(), word) + if ws.last() == word { 1nat } else { 0nat }
    }
}

/// `counts` pairs each word of `ws` with how often it occurs there, each
/// word once.
pub open spec fn counts_words(counts: Seq<(String, u32)>, ws: Seq<Seq<char>>) -> bool {
    &&& forall|i: int, j: int| 0 <= i < j < counts.len() ==> counts[i].0@ != counts[j].0@
    &&& forall|i: int| #![trigger counts[i]]
        0 <= i < counts.len() ==> counts[i].1 == occurrences(ws, counts[i].0@) && counts[i].1 > 0
    &&& forall|w: Seq<char>| #[trigger] occurrences(ws, w) > 0 ==> exists|i: int| 0 <= i < counts.len() && counts[i].0@ == w
}

proof fn lemma_occurrences_push(ws: Seq<Seq<char>>, word: Seq<char>, w: Seq<char>)
    ensures
        occurrences(ws.push(word), w) == occurrences(ws, w) + if w == word { 1nat } else { 0nat },
{
    assert(ws.push(word).drop_last() =~= ws);
}

/// `ws` without the occurrences of `word`.
spec fn without_word(ws: Seq<Seq<char>>, word: Seq<char>) -> Seq<Seq<char>>
    decreases ws.len(),
{
    if ws.len() == 0 {
        ws
    } else if ws.last() == word {
        without_word(ws.drop_last(), word)
    } else {
        without_word(ws.drop_last(), word).push(ws.last())
    }
}

proof fn lemma_without_word(ws: Seq<Seq<char>>, word: Seq<char>, other: Seq<char>)
    ensures
        occurrences(without_word(ws, word), other) == if other == word { 0 } else { occurrences(ws, other) },
        without_word(ws, word).len() + occurrences(ws, word) == ws.len(),
    decreases ws.len(),
{
    if ws.len() > 0 {
        lemma_without_word(ws.drop_last(), word, other);
        if ws.last() != word {
            lemma_occurrences_push(without_word(ws.drop_last(), word), ws.last(), other);
        }
    }
}

proof fn lemma_last_occurs(ws: Seq<Seq<char>>)
    requires
        ws.len() > 0,
    ensures
        occurrences(ws, ws.last()) > 0,
{
}

/// The sum of the counts in `counts`.
pub open spec fn total_count(counts: Seq<(String, u32)>) -> int
    decreases counts.len(),
{
    if counts.len() == 0 {
        0
    } else {
        total_count(counts.drop_last()) + counts.last().1
    }
}

/// Every word is counted exactly once: the counts of the distinct words add
/// up to the number of words.
pub proof fn lemma_counts_add_up(counts: Seq<(String, u32)>, ws: Seq<Seq<char>>)
    requires
        counts_words(counts, ws),
    ensures
        total_count(counts) == ws.len(),
    decreases counts.len(),
{
    if counts.len() == 0 {
        if ws.len() > 0 {
            lemma_last_occurs(ws);
        }
    } else {
        let last = counts.last();
        let word = last.0@;
        let rest = counts.drop_last();
        let others = without_word(ws, word);
        lemma_without_word(ws, word, word);
        assert forall|i: int| #![trigger rest[i]] 0 <= i < rest.len() implies
            rest[i].1 == occurrences(others, rest[i].0@) && rest[i].1 > 0 by {
            assert(rest[i] == counts[i]);
            assert(counts[i].0@ != counts[counts.len() - 1].0@);
            lemma_without_word(ws, word, rest[i].0@);
        }
        assert forall|w: Seq<char>| #[trigger] occurrences(others, w) > 0 implies
            exists|i: int| 0 <= i < rest.len() && rest[i].0@ == w by {
            lemma_without_word(ws, word, w);
            let i = choose|i: int| 0 <= i < counts.len() && counts[i].0@ == w;
            assert(i != counts.len() - 1);
            assert(rest[i] == counts[i]);
        }
        assert forall|i: int, j: int| 0 <= i < j < rest.len() implies rest[i].0@ != rest[j].0@ by {
            assert(rest[i] == counts[i] && rest[j] == counts[j]);
        }
        lemma_counts_add_up(rest, others);
        assert(counts[counts.len() - 1].1 == occurrences(ws, word));
    }
}

/// `a` is a prefix of `b`.
pub open spec fn is_prefix(a: Seq<Seq<char>>, b: Seq<Seq<char>>) -> bool {
    a.len() <= b.len() && a == b.subrange(0, a.len() as int)
}

proof fn lemma_occurrences_prefix(a: Seq<Seq<char>>, b: Seq<Seq<char>>, word: Seq<char>)
    requires
        is_prefix(a, b),
    ensures
        occurrences(a, word) <= occurrences(b, word),
    decreases b.len(),
{
    if a.len() == b.len() {
        assert(a =~= b);
    } else {
        assert(b.drop_last().subrange(0, a.len() as int) =~= b.subrange(0, a.len() as int));
        lemma_occurrences_prefix(a, b.drop_last(), word);
    }
}

proof fn lemma_prefix_trans(a: Seq<Seq<char>>, b: Seq<Seq<char>>, c: Seq<Seq<char>>)
    requires
        is_prefix(a, b),
        is_prefix(b, c),
    ensures
        is_prefix(a, c),
{
    assert forall|i: int| 0 <= i < a.len() implies a[i] == c.subrange(0, a.len() as int)[i] by {
        assert(a[i] == b.subrange(0, a.len() as int)[i]);
        assert(b[i] == c.subrange(0, b.len() as int)[i]);
    }
    assert(a =~= c.subrange(0, a.len() as int));
}

/// The words completed while reading the first `n` characters of `text` are
/// the first words completed while reading all of it.
proof fn lemma_scan_done_monotone(text: Seq<char>, n: int)
    requires
        0 <= n <= text.len(),
    ensures
        is_prefix(scan_words(text.subrange(0, n)).0, scan_words(text).0),
    decreases text.len(),
{
    let done = scan_words(text.subrange(0, n)).0;
    if n == text.len() {
        assert(text.subrange(0, n) =~= text);
        assert(done =~= done.subrange(0, done.len() as int));
    } else {
        let shorter = text.drop_last();
        assert(shorter.subrange(0, n) =~= text.subrange(0, n));
        lemma_scan_done_monotone(shorter, n);
        lemma_scan_done_prefix(text);
        lemma_prefix_trans(done, scan_words(shorter).0, scan_words(text).0);
    }
}

/// The words completed while reading the first `n` characters of `text` are
/// the first words of `text`.
proof fn lemma_scan_prefix(text: Seq<char>, n: int)
    requires
        0 <= n <= text.len(),
    ensures
        is_prefix(scan_words(text.subrange(0, n)).0, words(text)),
{
    lemma_scan_done_monotone(text, n);
    lemma_scan_done_prefix(text);
    lemma_prefix_trans(scan_words(text.subrange(0, n)).0, scan_words(text).0, words(text));
}

proof fn lemma_occurrences_concat(x: Seq<Seq<char>>, y: Seq<Seq<char>>, word: Seq<char>)
    ensures
        occurrences(x + y, word) == occurrences(x, word) + occurrences(y, word),
    decreases y.len(),
{
    if y.len() == 0 {
        assert(x + y =~= x);
    } else {
        assert((x + y).drop_last() =~= x + y.drop_last());
        lemma_occurrences_concat(x, y.drop_last(), word);
    }
}

/// Reading `more` after a text that ends between words continues with the
/// words of `more` alone.
proof fn lemma_scan_append(text: Seq<char>, more: Seq<char>)
    requires
        scan_words(text).1.len() == 0,
    ensures
        scan_words(text + more).0 == scan_words(text).0 + scan_words(more).0,
        scan_words(text + more).1 == scan_words(more).1,
    decreases more.len(),
{
    if more.len() == 0 {
        assert(text + more =~= text);
        assert(scan_words(text).0 + scan_words(more).0 =~= scan_words(text).0);
    } else {
        let shorter = more.drop_last();
        lemma_scan_append(text, shorter);
        assert((text + more).drop_last() =~= text + shorter);
        assert((text + more).last() == more.last());
        let done = scan_words(text).0;
        let rest = scan_words(shorter);
        assert((done + rest.0).push(rest.1) =~= done + rest.0.push(rest.1));
    }
}

/// The words of two texts joined by a space are the words of the first
/// followed by those of the second.
proof fn lemma_words_joined(a: Seq<char>, b: Seq<char>)
    ensures
        words(a + seq![' '] + b) == words(a) + words(b),
{
    let first = a + seq![' '];
    assert(first.drop_last() =~= a);
    assert(is_white_space(' '));
    assert(scan_words(first).0 == words(a));
    assert(scan_words(first).1.len() == 0);
    lemma_scan_append(first, b);
    let rest = scan_words(b);
    assert((words(a) + rest.0).push(rest.1) =~= words(a) + rest.0.push(rest.1));
}

/// The count of `word` in `counts`, 0 when it has no pair.
pub open spec fn count_of(counts: Seq<(String, u32)>, word: Seq<char>) -> nat {
    if exists|i: int| 0 <= i < counts.len() && counts[i].0@ == word {
        counts[choose|i: int| 0 <= i < counts.len() && counts[i].0@ == word].1 as nat
    } else {
        0
    }
}

proof fn lemma_count_of(counts: Seq<(String, u32)>, ws: Seq<Seq<char>>, word: Seq<char>)
    requires
        counts_words(counts, ws),
    ensures
        count_of(counts, word) == occurrences(ws, word),
{
    if exists|i: int| 0 <= i < counts.len() && counts[i].0@ == word {
        let i = choose|i: int| 0 <= i < counts.len() && counts[i].0@ == word;
        assert(counts[i].1 == occurrences(ws, counts[i].0@));
    } else if occurrences(ws, word) > 0 {
        let i = choose|i: int| 0 <= i < counts.len() && counts[i].0@ == word;
    }
}

/// Counting the words of two lines joined by a space gives every word the
/// sum of its counts in the two lines, whichever line comes first.
pub proof fn lemma_joined_lines_counts(
    a: Seq<char>,
    b: Seq<char>,
    counts_a: Seq<(String, u32)>,
    counts_b: Seq<(String, u32)>,
    counts_joined: Seq<(String, u32)>,
    word: Seq<char>,
)
    requires
        counts_words(counts_a, words(a)),
        counts_words(counts_b, words(b)),
        counts_words(counts_joined, words(a + seq![' '] + b)),
    ensures
        count_of(counts_joined, word) == count_of(counts_a, word) + count_of(counts_b, word),
        occurrences(words(a + seq![' '] + b), word) == occurrences(words(b + seq![' '] + a), word),
{
    lemma_words_joined(a, b);
    lemma_words_joined(b, a);
    lemma_occurrences_concat(words(a), words(b), word);
    lemma_occurrences_concat(words(b), words(a), word);
    lemma_count_of(counts_a, words(a), word);
    lemma_count_of(counts_b, words(b), word);
    lemma_count_of(counts_joined, words(a + seq![' '] + b), word);
}

/// Reading one more character only ever adds completed words.
proof fn lemma_scan_done_prefix(text: Seq<char>)
    ensures
        is_prefix(scan_words(text).0, words(text)),
        text.len() > 0 ==> is_prefix(scan_words(text.drop_last()).0, scan_words(text).0),
{
    let (done, current) = scan_words(text);
    if current.len() > 0 {
        assert(done =~= done.push(current).subrange(0, done.len() as int));
    } else {
        assert(done =~= done.subrange(0, done.len() as int));
    }
    if text.len() > 0 {
        let before = scan_words(text.drop_last()).0;
        if done.len() > before.len() {
            assert(before =~= done.subrange(0, before.len() as int));
        } else {
            assert(before =~= done.subrange(0, before.len() as int));
        }
    }
}

/// Whether `c` is white space (see [`is_white_space`]).
fn is_white_space_char(c: char) -> (white: bool)
    ensures
        white == is_white_space(c),
{
    let v = c as u32;
    (0x09 <= v && v <= 0x0d) || v == 0x20 || v == 0x85 || v == 0xa0 || v == 0x1680
        || (0x2000 <= v && v <= 0x200a) || v == 0x2028 || v == 0x2029 || v == 0x202f
        || v == 0x205f || v == 0x3000
}

/// Counts one more occurrence of `word`, unless its count would pass
/// `u32::MAX`; `false` then, with the counts unchanged.
fn count_word(counts: &mut Vec<(String, u32)>, word: String, Ghost(ws): Ghost<Seq<Seq<char>>>) -> (counted: bool)
    requires
        counts_words(old(counts)@, ws),
    ensures
        counted ==> counts_words(final(counts)@, ws.push(word@)),
        !counted <==> occurrences(ws.push(word@), word@) > u32::MAX,
{
    proof {
        assert forall|w: Seq<char>| #[trigger] occurrences(ws.push(word@), w)
            == occurrences(ws, w) + if w == word@ { 1nat } else { 0nat } by {
            lemma_occurrences_push(ws, word@, w);
        }
    }
    let mut i: usize = 0;
    while i < counts.len()
        invariant
            0 <= i <= counts@.len(),
            counts@ == old(counts)@,
            counts_words(counts@, ws),
            forall|w: Seq<char>| #[trigger] occurrences(ws.push(word@), w)
                == occurrences(ws, w) + if w == word@ { 1nat } else { 0nat },
            forall|j: int| 0 <= j < i ==> counts@[j].0@ != word@,
        decreases counts@.len() - i,
    {
        if counts[i].0 == word {
            let c = counts[i].1;
            proof {
                assert(c == occurrences(ws, counts@[i as int].0@));
            }
            if c == u32::MAX {
                return false;
            }
            let ghost before = counts@;
            counts.set(i, (word, c + 1));
            proof {
                assert forall|j: int| #![trigger counts@[j]] 0 <= j < counts@.len() implies
                    counts@[j].1 == occurrences(ws.push(word@), counts@[j].0@) && counts@[j].1 > 0 by {
                    if j != i {
                        assert(counts@[j] == before[j]);
                        assert(before[j].0@ != word@);
                    }
                }
                assert forall|w: Seq<char>| #[trigger] occurrences(ws.push(word@), w) > 0 implies
                    exists|j: int| 0 <= j < counts@.len() && counts@[j].0@ == w by {
                    if w == word@ {
                        assert(counts@[i as int].0@ == w);
                    } else {
                        assert(occurrences(ws, w) > 0);
                        let j = choose|j: int| 0 <= j < before.len() && before[j].0@ == w;
                        assert(counts@[j].0@ == w);
                    }
                }
                assert forall|j: int, k: int| 0 <= j < k < counts@.len() implies counts@[j].0@ != counts@[k].0@ by {
                    assert(before[j].0@ != before[k].0@);
                }
            }
            return true;
        }
        i = i + 1;
    }
    proof {
        assert(occurrences(ws, word@) == 0) by {
            if occurrences(ws, word@) > 0 {
                let j = choose|j: int| 0 <= j < counts@.len() && counts@[j].0@ == word@;
            }
        }
    }
    let ghost before = counts@;
    counts.push((word, 1));
    proof {
        assert forall|j: int| #![trigger counts@[j]] 0 <= j < counts@.len() implies
            counts@[j].1 == occurrences(ws.push(word@), counts@[j].0@) && counts@[j].1 > 0 by {
            if j < before.len() {
                assert(counts@[j] == before[j]);
            }
        }
        assert forall|w: Seq<char>| #[trigger] occurrences(ws.push(word@), w) > 0 implies
            exists|j: int| 0 <= j < counts@.len() && counts@[j].0@ == w by {
            if w == word@ {
                assert(counts@[before.len() as int].0@ == w);
            } else {
                assert(occurrences(ws, w) > 0);
                let j = choose|j: int| 0 <= j < before.len() && before[j].0@ == w;
                assert(counts@[j].0@ == w);
            }
        }
        assert forall|j: int, k: int| 0 <= j < k < counts@.len() implies counts@[j].0@ != counts@[k].0@ by {
            if k < before.len() {
                assert(before[j].0@ != before[k].0@);
            } else {
                assert(counts@[j] == before[j]);
            }
        }
    }
    true
}

/// No word occurs in `text` more often than a `u32` counts.
pub open spec fn word_counts_fit(text: Seq<char>) -> bool {
    forall|w: Seq<char>| #[trigger] occurrences(words(text), w) <= u32::MAX
}

/// Counts the words of `input`, as [`words`] splits it: one pair per
/// distinct word, with how often it occurs; `None` when some word occurs
/// more often than a `u32` counts.
pub fn count_words(input: &str) -> (counts: Option<Vec<(String, u32)>>)
    ensures
        counts is Some <==> word_counts_fit(input@),
        counts matches Some(c) ==> counts_words(c@, words(input@)),
{
    let mut counts: Vec<(String, u32)> = Vec::new();
    let mut current = String::new();
    let ghost mut seen: Seq<char> = Seq::empty();
    proof {
        assert(counts_words(counts@, Seq::<Seq<char>>::empty()));
    }
    for c in it: input.chars()
        invariant
            it.seq() == input@,
            seen == input@.subrange(0, it.index() as int),
            current@ == scan_words(seen).1,
            counts_words(counts@, scan_words(seen).0),
    {
        let ghost prev = seen;
        proof {
            seen = seen.push(c);
            assert(seen =~= input@.subrange(0, it.index() + 1));
            assert(seen.drop_last() =~= prev);
        }
        if is_white_space_char(c) {
            if !current.as_str().is_empty() {
                let word = current;
                current = String::new();
                let ghost word_view = word@;
                if !count_word(&mut counts, word, Ghost(scan_words(prev).0)) {
                    proof {
                        lemma_scan_prefix(input@, seen.len() as int);
                        assert(scan_words(seen).0 == scan_words(prev).0.push(word_view));
                        lemma_occurrences_prefix(scan_words(seen).0, words(input@), word_view);
                    }
                    return None;
                }
            } else {
                current = String::new();
            }
        } else {
            push_char(&mut current, c);
        }
    }
    proof {
        assert(seen =~= input@);
    }
    if !current.as_str().is_empty() {
        let ghost last_word = current@;
        if !count_word(&mut counts, current, Ghost(scan_words(seen).0)) {
            proof {
                assert(words(input@) == scan_words(seen).0.push(last_word));
            }
            return None;
        }
    }
    proof {
        assert forall|w: Seq<char>| #[trigger] occurrences(words(input@), w) <= u32::MAX by {
            if occurrences(words(input@), w) > 0 {
                let j = choose|j: int| 0 <= j < counts@.len() && counts@[j].0@ == w;
                assert(counts@[j].1 == occurrences(words(input@), counts@[j].0@));
            }
        }
    }
    Some(counts)
}

impl Mapper for WordCountMapper {
    type Input = String;
    type Key = String;
    type Value = u32;

    open spec fn accepts(&self, input: &String) -> bool {
        word_counts_fit(input@)
    }

    /// Counts the words of the line `input`: each distinct word once, with
    /// how often it occurs.
    fn map(&self, input: String) -> (counts: Vec<(String, u32)>)
        ensures
            counts_words(counts@, words(input@)),
    {
        match count_words(input.as_str()) {
            Some(counts) => counts,
            None => {
                proof {
                    assert(false);
                }
                Vec::new()
            },
        }
    }
}

} // verus!
